pub mod audio;
pub mod bridge;
pub mod floor;
pub mod relay;
pub mod usrp;
pub mod util;
