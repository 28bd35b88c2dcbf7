//! What the different flows agree on when Kratos refuses a submission.
use vstd::prelude::*;
use crate::domain::errors::ErrorView;
use crate::kratos::login::{spec_login_error, MESSAGE_INVALID_CREDENTIALS, MESSAGE_LOGIN_REFUSED};
use crate::kratos::models::KratosFlowError;
use crate::kratos::recovery::{spec_recovery_error, MESSAGE_INVALID_RECOVERY_ADDRESS};
use crate::kratos::settings::{
    spec_settings_command_error, spec_settings_error, MESSAGE_PASSWORD_REFUSED,
};
use crate::kratos::status::{STATUS_BAD_REQUEST, STATUS_GONE, STATUS_UNAUTHORIZED};
use crate::kratos::verification::{
    spec_verification_command_error, spec_verification_error, MESSAGE_INVALID_VERIFICATION_ADDRESS,
    MESSAGE_INVALID_VERIFICATION_CODE,
};

verus! {

/// The error means the caller is not authenticated.
pub open spec fn is_not_authenticated(v: ErrorView) -> bool {
    v matches ErrorView::NotAuthenticated
}

/// The error means the flow no longer exists.
pub open spec fn is_flow_gone(v: ErrorView) -> bool {
    v matches ErrorView::FlowNotFound || v matches ErrorView::NotFound(_)
}

/// Every flow reads a 401 refusal as "not authenticated".
pub proof fn lemma_unauthorized_is_not_authenticated(e: KratosFlowError)
    requires
        e.status.spec_code() == STATUS_UNAUTHORIZED,
    ensures
        is_not_authenticated(spec_login_error(e)),
        is_not_authenticated(spec_recovery_error(e)),
        is_not_authenticated(spec_verification_error(e)),
        is_not_authenticated(spec_verification_command_error(e)),
        is_not_authenticated(spec_settings_error(e)),
        is_not_authenticated(spec_settings_command_error(e)),
{
}

/// Every flow reads a 410 refusal as a flow that no longer exists.
pub proof fn lemma_gone_is_flow_gone(e: KratosFlowError)
    requires
        e.status.spec_code() == STATUS_GONE,
    ensures
        is_flow_gone(spec_login_error(e)),
        is_flow_gone(spec_recovery_error(e)),
        is_flow_gone(spec_verification_error(e)),
        is_flow_gone(spec_verification_command_error(e)),
        is_flow_gone(spec_settings_error(e)),
        is_flow_gone(spec_settings_command_error(e)),
{
}

/// Every flow passes the text of Kratos's first message on as invalid data
/// when it refuses a submission as a bad request with a message id that the
/// flow does not single out.
pub proof fn lemma_bad_request_passes_message_on(e: KratosFlowError)
    requires
        e.status.spec_code() == STATUS_BAD_REQUEST,
        e.spec_message_id() != MESSAGE_INVALID_CREDENTIALS,
        e.spec_message_id() != MESSAGE_LOGIN_REFUSED,
        e.spec_message_id() != MESSAGE_INVALID_RECOVERY_ADDRESS,
        e.spec_message_id() != MESSAGE_INVALID_VERIFICATION_CODE,
        e.spec_message_id() != MESSAGE_INVALID_VERIFICATION_ADDRESS,
        e.spec_message_id() != MESSAGE_PASSWORD_REFUSED,
    ensures
        spec_login_error(e) == ErrorView::InvalidData(e.spec_message_text()),
        spec_recovery_error(e) == ErrorView::InvalidData(e.spec_message_text()),
        spec_verification_error(e) == ErrorView::InvalidData(e.spec_message_text()),
        spec_verification_command_error(e) == ErrorView::InvalidData(e.spec_message_text()),
        spec_settings_error(e) == ErrorView::InvalidData(e.spec_message_text()),
        spec_settings_command_error(e) == ErrorView::InvalidData(e.spec_message_text()),
{
}

} // verus!
