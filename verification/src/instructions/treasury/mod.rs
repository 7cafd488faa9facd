pub mod init_treasury;
