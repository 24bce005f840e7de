pub mod reconcile;
pub mod server_repository;
pub mod vm_repository;
pub mod idempotence;
pub mod component_repository;
pub mod kubernetes_repository;
