pub mod mouser;
