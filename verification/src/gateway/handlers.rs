//! Getting, listing, deleting, stopping and starting sandboxes.

use vstd::prelude::*;

use crate::gateway::convert;
use crate::gateway::error::{GatewayError, GatewayErrorView};
use crate::gateway::wire::CloudCreateSandboxResponse;
use crate::k8s::ApiError;
use crate::sandbox::{DesiredState, Sandbox};

verus! {

/// What a failed request to the API server means: an object that is not there is a
/// sandbox that does not exist.
pub fn map_kube(name: &str, e: ApiError) -> (r: GatewayError)
    ensures
        r@ == (if e.code == Some(404u16) {
            GatewayErrorView::NotFound(name@)
        } else {
            GatewayErrorView::Kube(e.message@)
        }),
{
    if matches!(e.code, Some(404)) {
        GatewayError::NotFound(name.to_owned())
    } else {
        GatewayError::Kube(e)
    }
}

/// One page of sandboxes. There is no next one.
#[derive(Debug, PartialEq)]
pub struct CloudPage {
    pub data: Vec<CloudCreateSandboxResponse>,
    pub next_cursor: Option<String>,
}

/// The page of these sandboxes, in the same order.
pub fn list_page(items: &Vec<Sandbox>) -> (page: CloudPage)
    ensures
        page.data@.len() == items@.len(),
        forall|i: int| 0 <= i < items@.len() ==> convert::tells(#[trigger] page.data@[i], items@[i]),
        page.next_cursor is None,
{
    let mut data: Vec<CloudCreateSandboxResponse> = Vec::new();
    let mut i: usize = 0;
    while i < items.len()
        invariant
            i <= items.len(),
            data@.len() == i,
            forall|k: int| 0 <= k < i ==> convert::tells(#[trigger] data@[k], items@[k]),
        decreases items.len() - i,
    {
        data.push(convert::sandbox_to_cloud(&items[i]));
        i = i + 1;
    }
    CloudPage { data, next_cursor: None }
}

/// What a client is told whose sandbox was deleted.
pub fn deleted_message(name: &str) -> (out: String)
    ensures
        out@ == "sandbox "@ + name@ + " deleted"@,
{
    "sandbox ".to_owned().concat(name).concat(" deleted")
}

/// How the specification writes a desired state.
pub open spec fn desired_name(state: DesiredState) -> Seq<char> {
    match state {
        DesiredState::Running => "Running"@,
        DesiredState::Stopped => "Stopped"@,
    }
}

/// The merge patch that sets the desired state, and nothing else, as JSON.
pub fn desired_state_patch(state: DesiredState) -> (out: String)
    ensures
        out@ == "{\"spec\":{\"desiredState\":\""@ + desired_name(state) + "\"}}"@,
{
    let name = match state {
        DesiredState::Running => "Running",
        DesiredState::Stopped => "Stopped",
    };
    "{\"spec\":{\"desiredState\":\"".to_owned().concat(name).concat("\"}}")
}

/// The two states are asked for by different names, and to stop is not to run.
pub proof fn states_are_told_apart(a: DesiredState, b: DesiredState)
    ensures
        desired_name(a) == desired_name(b) <==> a == b,
        a is Running <==> desired_name(a) == "Running"@,
        a is Stopped <==> desired_name(a) == "Stopped"@,
{
    reveal_strlit("Running");
    reveal_strlit("Stopped");
    assert("Running"@[0] == 'R');
    assert("Stopped"@[0] == 'S');
}

} // verus!
