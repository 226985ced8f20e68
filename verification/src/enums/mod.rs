pub mod experiment_status;
