pub mod analytics;
pub mod api_key;
pub mod auth;
pub mod evaluate;
pub mod experiment;
pub mod metric;
pub mod query;
pub mod request;
pub mod response;
pub mod track;
pub mod user;

pub use analytics::{Granularity, TimeSeriesBucket};
pub use api_key::{
    ApiKeyAuthRow, ApiKeyListItem, ApiKeyListResponse, ApiKeyListRow, AuthenticatedApiKey,
    CreateApiKeyRequest, CreateApiKeyResponse,
};
pub use auth::{
    AcceptInviteRequest, AuthenticatedUser, CompanyResponse, CompanyRow, GoogleLoginRequest,
    JwtSecret, LoginResponse, PasswordLoginRequest, UserResponse, UserRole, UserRow,
};
pub use evaluate::{EvaluateRequest, EvaluateResponse};
pub use experiment::{
    CachedExperiment, Constraint, ConstraintOperator, CreateExperimentRequest,
    CreateExperimentResponse, Distribution, ExperimentListItem, ExperimentListResponse,
    ExperimentListRow, ExperimentResponse, ExperimentRow, ExperimentStatus,
    GetExperimentsQueryParams, Segment, UpdateExperimentRequest, Variant,
};
pub use response::MessageResponse;
pub use track::{RecordOutcome, TrackEvent, TrackRequest, TrackResponse};
pub use user::{InviteUserRequest, UserListItem, UserListResponse, UserStatus};
