//! Runs of the service: what the state is after any number of requests.

use crate::error::ServiceError;
use crate::model::UniversityView;
use crate::preservation::{
    lemma_approve_wf, lemma_assign_role_wf, lemma_create_course_wf, lemma_enroll_wf,
    lemma_init_wf, lemma_login_wf, lemma_propose_wf, lemma_reject_wf, lemma_save_profile_wf,
    lemma_vote_wf,
};
use crate::profile::UserProfileView;
use crate::role::Role;
use candid::Principal;
use vstd::prelude::*;

verus! {

/// A request that can change the state, with its caller and arguments.
pub enum Request {
    Login { caller: Principal, requested: Role },
    AssignRole { caller: Principal, user: Principal, role: Role },
    SaveProfile { caller: Principal, profile: UserProfileView },
    CreateCourse { caller: Principal, clock: u64, title: Seq<char>, description: Seq<char> },
    Propose { caller: Principal, id: Seq<char> },
    Vote { caller: Principal, id: Seq<char> },
    Approve { caller: Principal, id: Seq<char> },
    Reject { caller: Principal, id: Seq<char> },
    Enroll { caller: Principal, id: Seq<char> },
}

impl Request {
    /// Who makes the request.
    pub open spec fn caller(self) -> Principal {
        match self {
            Request::Login { caller, .. } => caller,
            Request::AssignRole { caller, .. } => caller,
            Request::SaveProfile { caller, .. } => caller,
            Request::CreateCourse { caller, .. } => caller,
            Request::Propose { caller, .. } => caller,
            Request::Vote { caller, .. } => caller,
            Request::Approve { caller, .. } => caller,
            Request::Reject { caller, .. } => caller,
            Request::Enroll { caller, .. } => caller,
        }
    }
}

impl UniversityView {
    /// What `request` leads to: the next state, or the reason for refusing it.
    pub open spec fn outcome(self, request: Request) -> Result<UniversityView, ServiceError> {
        match request {
            Request::Login { caller, requested } => self.login_as_role(caller, requested),
            Request::AssignRole { caller, user, role } => self.assign_role(caller, user, role),
            Request::SaveProfile { caller, profile } => self.save_profile(caller, profile),
            Request::CreateCourse { caller, clock, title, description } => self.create_course(
                caller,
                clock,
                title,
                description,
            ),
            Request::Propose { caller, id } => self.propose_course(caller, id),
            Request::Vote { caller, id } => self.vote_for_course(caller, id),
            Request::Approve { caller, id } => self.approve_course(caller, id),
            Request::Reject { caller, id } => self.reject_course(caller, id),
            Request::Enroll { caller, id } => self.enroll_in_course(caller, id),
        }
    }

    /// The state after `request`: a refused request changes nothing.
    pub open spec fn after(self, request: Request) -> UniversityView {
        match self.outcome(request) {
            Ok(next) => next,
            Err(_) => self,
        }
    }

    /// The state after `requests`, one after the other.
    pub open spec fn after_all(self, requests: Seq<Request>) -> UniversityView
        decreases requests.len(),
    {
        if requests.len() == 0 {
            self
        } else {
            self.after_all(requests.drop_last()).after(requests.last())
        }
    }
}

/// A request keeps the invariant, whether it is granted or refused.
pub proof fn lemma_request_keeps_wf(state: UniversityView, request: Request)
    requires
        state.wf(),
    ensures
        state.after(request).wf(),
{
    match request {
        Request::Login { caller, requested } => lemma_login_wf(state, caller, requested),
        Request::AssignRole { caller, user, role } => lemma_assign_role_wf(
            state,
            caller,
            user,
            role,
        ),
        Request::SaveProfile { caller, profile } => lemma_save_profile_wf(state, caller, profile),
        Request::CreateCourse { caller, clock, title, description } => lemma_create_course_wf(
            state,
            caller,
            clock,
            title,
            description,
        ),
        Request::Propose { caller, id } => lemma_propose_wf(state, caller, id),
        Request::Vote { caller, id } => lemma_vote_wf(state, caller, id),
        Request::Approve { caller, id } => lemma_approve_wf(state, caller, id),
        Request::Reject { caller, id } => lemma_reject_wf(state, caller, id),
        Request::Enroll { caller, id } => lemma_enroll_wf(state, caller, id),
    }
}

/// The invariant holds after any run that starts from a state in which it
/// holds.
pub proof fn lemma_run_keeps_wf(state: UniversityView, requests: Seq<Request>)
    requires
        state.wf(),
    ensures
        state.after_all(requests).wf(),
    decreases requests.len(),
{
    if requests.len() > 0 {
        lemma_run_keeps_wf(state, requests.drop_last());
        lemma_request_keeps_wf(state.after_all(requests.drop_last()), requests.last());
    }
}

/// The invariant holds in every state that the service can reach.
pub proof fn lemma_reachable_wf(deployer: Principal, requests: Seq<Request>)
    ensures
        UniversityView::init(deployer).after_all(requests).wf(),
{
    lemma_init_wf(deployer);
    lemma_run_keeps_wf(UniversityView::init(deployer), requests);
}

} // verus!
