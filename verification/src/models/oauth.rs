//! OAuth token sets of a profile (the `profile_oauth` table).

use vstd::prelude::*;

use crate::utils::strings::option_string_view;

verus! {

/// Supported OAuth providers for a profile.
#[derive(Clone, Copy, Debug, PartialEq, Eq, Structural, PartialOrd)]
pub enum OAuthType {
    /// OAuth provider for Youtube.
    Youtube,
}

/// A single OAuth token set of a profile.
#[derive(Clone, Debug, PartialEq, PartialOrd)]
pub struct ProfileOAuth {
    id: i32,
    profile_id: i32,
    oauth_type: OAuthType,
    refresh_token: Option<String>,
    auth_token: Option<String>,
}

/// The values of a token set.
pub struct ProfileOAuthView {
    pub id: i32,
    pub profile_id: i32,
    pub oauth_type: OAuthType,
    pub refresh_token: Option<Seq<char>>,
    pub auth_token: Option<Seq<char>>,
}

impl View for ProfileOAuth {
    type V = ProfileOAuthView;

    closed spec fn view(&self) -> ProfileOAuthView {
        ProfileOAuthView {
            id: self.id,
            profile_id: self.profile_id,
            oauth_type: self.oauth_type,
            refresh_token: option_string_view(self.refresh_token),
            auth_token: option_string_view(self.auth_token),
        }
    }
}

/// What a deletion reports from the number of rows it affected: `Some(())`
/// when a row was deleted, `None` when no row matched.
pub open spec fn deletion_outcome_spec(rows_affected: u64) -> Option<()> {
    if rows_affected == 0 {
        None
    } else {
        Some(())
    }
}

/// A deletion reports success exactly when it affected a row.
pub proof fn lemma_deletion_reports_affected_rows(rows_affected: u64)
    ensures
        deletion_outcome_spec(rows_affected) is None <==> rows_affected == 0,
        rows_affected > 0 ==> deletion_outcome_spec(rows_affected) == Some(()),
{
}

impl ProfileOAuth {
    /// A token set holding the given values.
    pub fn new(
        id: i32,
        profile_id: i32,
        oauth_type: OAuthType,
        refresh_token: Option<String>,
        auth_token: Option<String>,
    ) -> (oauth: Self)
        ensures
            oauth@ == (ProfileOAuthView {
                id,
                profile_id,
                oauth_type,
                refresh_token: option_string_view(refresh_token),
                auth_token: option_string_view(auth_token),
            }),
    {
        ProfileOAuth { id, profile_id, oauth_type, refresh_token, auth_token }
    }

    /// The outcome of deleting this token set, from the number of rows the
    /// deletion affected.
    pub fn deletion_outcome(rows_affected: u64) -> (res: Option<()>)
        ensures
            res == deletion_outcome_spec(rows_affected),
            res is None <==> rows_affected == 0,
            res is Some ==> res == Some(()),
    {
        if rows_affected == 0 {
            None
        } else {
            Some(())
        }
    }

    /// Records a new refresh token (or its absence) once the database holds
    /// it; nothing else changes.
    pub fn set_refresh_token(&mut self, new_token: Option<String>)
        ensures
            final(self)@ == (ProfileOAuthView { refresh_token: option_string_view(new_token), ..old(self)@ }),
    {
        self.refresh_token = new_token;
    }

    /// Records a new authentication token (or its absence) once the
    /// database holds it; nothing else changes.
    pub fn set_auth_token(&mut self, new_token: Option<String>)
        ensures
            final(self)@ == (ProfileOAuthView { auth_token: option_string_view(new_token), ..old(self)@ }),
    {
        self.auth_token = new_token;
    }

    /// The token set's ID.
    pub fn id(&self) -> (id: i32)
        ensures
            id == self@.id,
    {
        self.id
    }

    /// The ID of the profile owning this token set.
    pub fn profile_id(&self) -> (profile_id: i32)
        ensures
            profile_id == self@.profile_id,
    {
        self.profile_id
    }

    /// The OAuth provider type.
    pub fn oauth_type(&self) -> (oauth_type: OAuthType)
        ensures
            oauth_type == self@.oauth_type,
    {
        self.oauth_type
    }

    /// The refresh token, if any.
    pub fn refresh_token(&self) -> (token: &Option<String>)
        ensures
            option_string_view(*token) == self@.refresh_token,
    {
        &self.refresh_token
    }

    /// The authentication token, if any.
    pub fn auth_token(&self) -> (token: &Option<String>)
        ensures
            option_string_view(*token) == self@.auth_token,
    {
        &self.auth_token
    }
}

} // verus!
