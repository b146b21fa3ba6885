pub mod bus;
pub mod cartridge;
pub mod cartridge_data;
pub mod cartridge_header;
pub mod cpu;
pub mod mapper;
pub mod mapper000;
pub mod theorems;
