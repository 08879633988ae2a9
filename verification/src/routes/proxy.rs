//! The switch in front of the executor.

use crate::proxy::types::{ErrorCode, ProxyResponse};
use crate::shared::text::same_text;
use vstd::prelude::*;
use vstd::string::*;

verus! {

/// The setting switches the executor off when it is `true` or `1`.
pub open spec fn switches_off(setting: Option<Seq<char>>) -> bool {
    match setting {
        Some(value) => value == "true"@ || value == "1"@,
        None => false,
    }
}

/// Whether the executor is switched off by `setting`.
pub fn is_proxy_disabled(setting: Option<&str>) -> (disabled: bool)
    ensures
        disabled == switches_off(
            match setting {
                Some(value) => Some(value@),
                None => None,
            },
        ),
{
    match setting {
        Some(value) => same_text(value, "true") || same_text(value, "1"),
        None => false,
    }
}

/// The answer to a request that comes while the executor is switched off;
/// none while it is on.
pub fn refusal(disabled: bool) -> (refusal: Option<ProxyResponse>)
    ensures
        match refusal {
            Some(response) => disabled && response.fails_with(
                "Proxy is disabled. Please use the browser extension."@,
                ErrorCode::ProxyDisabled,
            ),
            None => !disabled,
        },
{
    if disabled {
        Some(
            ProxyResponse::failure(
                String::from_str("Proxy is disabled. Please use the browser extension."),
                ErrorCode::ProxyDisabled,
            ),
        )
    } else {
        None
    }
}

} // verus!
