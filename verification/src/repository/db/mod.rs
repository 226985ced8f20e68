pub mod api_keys;
pub mod experiments;
pub mod users;

pub use api_keys::{create_api_key_outcome, CreateApiKeyOutcome, NewApiKey};
pub use experiments::{
    apply_update, create_experiment_outcome, delete_transition, initial_state, start_transition,
    stop_transition, update_transition, CreateExperimentOutcome, DeleteExperimentOutcome,
    ExperimentDefinition, ExperimentState, StartExperimentOutcome, StopExperimentOutcome, UpdateExperimentFields,
    UpdateExperimentOutcome,
};
pub use users::{
    google_admin_row, new_company_row, password_admin_row, pending_user_outcome,
    pending_user_row, CreatePendingUserOutcome, PendingUserInvite,
};
