//! What a user says about themselves. A profile is stored under the principal
//! of the user who saved it and has no rules of its own.

use crate::error::ServiceError;
use crate::guard::{check_registered, require_registered};
use crate::preservation::lemma_save_profile_wf;
use crate::state::University;
use candid::Principal;
use vstd::prelude::*;

verus! {

/// A user's profile.
#[derive(Debug)]
pub struct UserProfile {
    /// The owner. Whatever the caller sends here, the stored profile carries
    /// the caller's own principal.
    pub profile_id: Principal,
    pub name: String,
    pub bio: Option<String>,
    pub contact_email: Option<String>,
    pub github_username: Option<String>,
}

/// A profile as a mathematical value.
pub struct UserProfileView {
    pub profile_id: Principal,
    pub name: Seq<char>,
    pub bio: Option<Seq<char>>,
    pub contact_email: Option<Seq<char>>,
    pub github_username: Option<Seq<char>>,
}

/// The characters of an optional text.
pub open spec fn text_view(text: Option<String>) -> Option<Seq<char>> {
    match text {
        Some(s) => Some(s@),
        None => None,
    }
}

fn copy_text(text: &Option<String>) -> (copy: Option<String>)
    ensures
        copy == *text,
{
    match text {
        Some(s) => Some(s.clone()),
        None => None,
    }
}

impl View for UserProfile {
    type V = UserProfileView;

    open spec fn view(&self) -> UserProfileView {
        UserProfileView {
            profile_id: self.profile_id,
            name: self.name@,
            bio: text_view(self.bio),
            contact_email: text_view(self.contact_email),
            github_username: text_view(self.github_username),
        }
    }
}

impl Clone for UserProfile {
    fn clone(&self) -> (copy: UserProfile)
        ensures
            copy@ == self@,
    {
        UserProfile {
            profile_id: self.profile_id,
            name: self.name.clone(),
            bio: copy_text(&self.bio),
            contact_email: copy_text(&self.contact_email),
            github_username: copy_text(&self.github_username),
        }
    }
}

impl UserProfileView {
    /// The same profile under another owner.
    pub open spec fn owned_by(self, owner: Principal) -> UserProfileView {
        UserProfileView { profile_id: owner, ..self }
    }
}

impl UserProfile {
    /// The same profile under another owner.
    pub fn owned_by(self, owner: Principal) -> (profile: UserProfile)
        ensures
            profile@ == self@.owned_by(owner),
    {
        UserProfile {
            profile_id: owner,
            name: self.name,
            bio: self.bio,
            contact_email: self.contact_email,
            github_username: self.github_username,
        }
    }
}

impl University {
    /// `caller`, who has a role, saves `profile_data` as their profile,
    /// replacing the one they saved before.
    pub fn create_or_update_my_profile(&mut self, caller: &Principal, profile_data: UserProfile) -> (r:
        Result<(), ServiceError>)
        requires
            old(self).wf(),
        ensures
            final(self).wf(),
            match old(self)@.save_profile(*caller, profile_data@) {
                Ok(next) => final(self)@ == next && r is Ok,
                Err(e) => final(self)@ == old(self)@ && r == Err::<(), ServiceError>(e),
            },
    {
        match require_registered(&self.roles, caller) {
            Err(e) => {
                return Err(e);
            },
            Ok(_) => {},
        }
        self.profiles.insert(*caller, profile_data.owned_by(*caller));
        proof {
            let next = old(self)@.save_profile(*caller, profile_data@)->Ok_0;
            assert(self@ == next);
            lemma_save_profile_wf(old(self)@, *caller, profile_data@);
        }
        Ok(())
    }

    /// The profile that `caller`, who has a role, saved last, if any.
    pub fn get_my_profile(&self, caller: &Principal) -> (r: Result<Option<UserProfile>, ServiceError>)
        requires
            self.wf(),
        ensures
            match check_registered(self@.roles, *caller) {
                Ok(_) => r is Ok && match r->Ok_0 {
                    Some(profile) => self@.profiles.contains_key(*caller) && profile@
                        == self@.profiles[*caller],
                    None => !self@.profiles.contains_key(*caller),
                },
                Err(e) => r == Err::<Option<UserProfile>, ServiceError>(e),
            },
    {
        match require_registered(&self.roles, caller) {
            Err(e) => {
                return Err(e);
            },
            Ok(_) => {},
        }
        match self.profiles.get(caller) {
            Some(profile) => Ok(Some(profile.clone())),
            None => Ok(None),
        }
    }
}

} // verus!
