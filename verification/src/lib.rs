pub mod headers;
pub mod request;
pub mod simplehttp;
pub mod simplehttp_esp32;
pub mod simplehttp_fastly;
pub mod simplehttp_reqwest;
pub mod simplehttp_spin;
