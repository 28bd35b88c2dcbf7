//! Starting account recovery through a Kratos recovery flow.
use vstd::prelude::*;
use crate::domain::errors::{DomainError, ErrorView};
use crate::domain::ports::RecoveryRequest;
use crate::kratos::models::{FlowPayload, FlowResult, FlowSubmission, KratosFlowError, PostFlowResult};
use crate::kratos::status::{STATUS_BAD_REQUEST, STATUS_GONE, STATUS_UNAUTHORIZED};
use crate::kratos::verification::{is_verification_payload, submits_to};
use crate::text::owned;

verus! {

/// Kratos's message id for an address it cannot send a recovery link to.
pub const MESSAGE_INVALID_RECOVERY_ADDRESS: u64 = 4060001;

/// The submission that asks for a recovery link for `request.email`, given
/// the fetched recovery flow; a failed fetch is a network error and a flow
/// without id was not found.
pub fn recovery_submission(flow: Result<FlowResult, String>, request: RecoveryRequest) -> (r: Result<
    FlowSubmission,
    DomainError,
>)
    ensures
        match flow {
            Err(e) => r matches Err(d) && d@ == ErrorView::Network(e@),
            Ok(f) => match f.flow.id {
                None => r matches Err(d) && d@ == ErrorView::FlowNotFound,
                Some(_) => r matches Ok(s) && submits_to(s, f) && is_verification_payload(
                    s.payload,
                    "link"@,
                    Some(request.email),
                    None,
                    None,
                ),
            },
        },
{
    match flow {
        Err(e) => Err(DomainError::Network(e)),
        Ok(f) => match f.flow.id {
            None => Err(DomainError::FlowNotFound),
            Some(id) => {
                let mut payload = FlowPayload::new(owned("link"), f.csrf_token);
                payload.email = Some(request.email);
                Ok(FlowSubmission { flow_id: id, payload, cookies: f.cookies })
            },
        },
    }
}

/// The error that a refused recovery submission stands for.
pub open spec fn spec_recovery_error(e: KratosFlowError) -> ErrorView {
    let code = e.status.spec_code();
    if code == STATUS_BAD_REQUEST {
        if e.spec_message_id() == MESSAGE_INVALID_RECOVERY_ADDRESS {
            ErrorView::InvalidData("Invalid email address"@)
        } else {
            ErrorView::InvalidData(e.spec_message_text())
        }
    } else if code == STATUS_GONE {
        ErrorView::FlowNotFound
    } else if code == STATUS_UNAUTHORIZED {
        ErrorView::NotAuthenticated
    } else {
        ErrorView::Network(e.spec_display())
    }
}

/// The error that a refused recovery submission stands for.
pub fn map_recovery_error(e: &KratosFlowError) -> (r: DomainError)
    ensures
        r@ == spec_recovery_error(*e),
{
    let code = e.status.code();
    if code == STATUS_BAD_REQUEST {
        if e.message_id() == MESSAGE_INVALID_RECOVERY_ADDRESS {
            DomainError::InvalidData(owned("Invalid email address"))
        } else {
            DomainError::InvalidData(owned(e.message_text()))
        }
    } else if code == STATUS_GONE {
        DomainError::FlowNotFound
    } else if code == STATUS_UNAUTHORIZED {
        DomainError::NotAuthenticated
    } else {
        DomainError::Network(e.display())
    }
}

/// How a recovery submission ends. Kratos answers the same way whether or not
/// the address belongs to an account.
pub fn recovery_outcome(post: Result<PostFlowResult, KratosFlowError>) -> (r: Result<
    (),
    DomainError,
>)
    ensures
        match post {
            Ok(_) => r is Ok,
            Err(e) => r matches Err(d) && d@ == spec_recovery_error(e),
        },
{
    match post {
        Ok(_) => Ok(()),
        Err(e) => Err(map_recovery_error(&e)),
    }
}

} // verus!
