//! Upload platform credentials of a profile (the `upload_platforms` table).

use vstd::prelude::*;

verus! {

/// The target platforms to upload to.
#[derive(Debug, PartialEq, Eq, Structural, PartialOrd, Clone, Copy)]
pub enum UploadPlatformType {
    /// The provider defined in the environment variables.
    Local,
    /// YouTube short video upload.
    YoutubeShorts,
    /// YouTube long form video upload.
    YoutubeVideo,
}

/// A credential set of a profile for an upload platform.
#[derive(Debug, PartialEq, PartialOrd, Clone)]
pub struct UploadPlatform {
    id: i32,
    profile_id: i32,
    platform: UploadPlatformType,
    oauth_refresh: Vec<u8>,
    oauth_token: Vec<u8>,
}

/// The values of a credential set.
pub struct UploadPlatformView {
    pub id: i32,
    pub profile_id: i32,
    pub platform: UploadPlatformType,
    pub oauth_refresh: Seq<u8>,
    pub oauth_token: Seq<u8>,
}

impl View for UploadPlatform {
    type V = UploadPlatformView;

    closed spec fn view(&self) -> UploadPlatformView {
        UploadPlatformView {
            id: self.id,
            profile_id: self.profile_id,
            platform: self.platform,
            oauth_refresh: self.oauth_refresh@,
            oauth_token: self.oauth_token@,
        }
    }
}

impl UploadPlatform {
    /// A credential set holding the given values.
    pub fn new(id: i32, profile_id: i32, platform: UploadPlatformType, oauth_refresh: Vec<u8>, oauth_token: Vec<u8>) -> (p: Self)
        ensures
            p@ == (UploadPlatformView { id, profile_id, platform, oauth_refresh: oauth_refresh@, oauth_token: oauth_token@ }),
    {
        UploadPlatform { id, profile_id, platform, oauth_refresh, oauth_token }
    }

    /// The primary key.
    pub fn id(&self) -> (id: i32)
        ensures
            id == self@.id,
    {
        self.id
    }

    /// The profile this credential set belongs to.
    pub fn profile_id(&self) -> (profile_id: i32)
        ensures
            profile_id == self@.profile_id,
    {
        self.profile_id
    }

    /// Which platform this credential set is for.
    pub fn platform(&self) -> (platform: UploadPlatformType)
        ensures
            platform == self@.platform,
    {
        self.platform
    }

    /// The OAuth refresh token of the credential set.
    pub fn oauth_refresh(&self) -> (token: &[u8])
        ensures
            token@ == self@.oauth_refresh,
    {
        self.oauth_refresh.as_slice()
    }

    /// The OAuth secret token of the credential set.
    pub fn oauth_token(&self) -> (token: &[u8])
        ensures
            token@ == self@.oauth_token,
    {
        self.oauth_token.as_slice()
    }
}

} // verus!
