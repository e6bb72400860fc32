pub mod credentials;
