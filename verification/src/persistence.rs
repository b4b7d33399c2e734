pub mod entity_repo;
