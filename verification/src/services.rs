pub mod emily_service;
