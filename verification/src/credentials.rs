//! The credential record: the one persisted entity.

use vstd::prelude::*;

verus! {

/// Mathematical image of a credential record: each field as a sequence of
/// characters, the optional session token kept as an option.
pub ghost struct CredView {
    pub access_key_id: Seq<char>,
    pub secret_access_key: Seq<char>,
    pub region: Seq<char>,
    pub session_token: Option<Seq<char>>,
}

impl CredView {
    /// A record with an empty access key id or an empty secret key is
    /// "not configured": no sidecar is started for it.
    pub open spec fn is_configured(self) -> bool {
        self.access_key_id.len() > 0 && self.secret_access_key.len() > 0
    }

    /// The token that actually reaches the child environment: an absent or
    /// empty session token is omitted.
    pub open spec fn effective_token(self) -> Option<Seq<char>> {
        match self.session_token {
            Some(t) => if t.len() > 0 {
                Some(t)
            } else {
                None
            },
            None => None,
        }
    }
}

/// An AWS credential record as the application persists it.
#[derive(Debug)]
pub struct AwsCredentials {
    pub access_key_id: String,
    pub secret_access_key: String,
    pub region: String,
    pub session_token: Option<String>,
}

impl View for AwsCredentials {
    type V = CredView;

    open spec fn view(&self) -> CredView {
        CredView {
            access_key_id: self.access_key_id@,
            secret_access_key: self.secret_access_key@,
            region: self.region@,
            session_token: match self.session_token {
                Some(t) => Some(t@),
                None => None,
            },
        }
    }
}

impl Clone for AwsCredentials {
    fn clone(&self) -> (res: Self)
        ensures
            res@ == self@,
    {
        AwsCredentials {
            access_key_id: self.access_key_id.clone(),
            secret_access_key: self.secret_access_key.clone(),
            region: self.region.clone(),
            session_token: match &self.session_token {
                Some(t) => Some(t.clone()),
                None => None,
            },
        }
    }
}

impl Default for AwsCredentials {
    fn default() -> (r: Self)
        ensures
            r@.access_key_id.len() == 0,
            r@.secret_access_key.len() == 0,
            r@.region.len() == 0,
            r@.session_token is None,
            !r@.is_configured(),
    {
        AwsCredentials {
            access_key_id: String::new(),
            secret_access_key: String::new(),
            region: String::new(),
            session_token: None,
        }
    }
}

impl PartialEq for AwsCredentials {
    fn eq(&self, other: &Self) -> (r: bool) {
        let tok_eq = match (&self.session_token, &other.session_token) {
            (Some(a), Some(b)) => *a == *b,
            (None, None) => true,
            _ => false,
        };
        tok_eq && self.access_key_id == other.access_key_id
            && self.secret_access_key == other.secret_access_key && self.region == other.region
    }
}

impl vstd::std_specs::cmp::PartialEqSpecImpl for AwsCredentials {
    open spec fn obeys_eq_spec() -> bool {
        true
    }

    open spec fn eq_spec(&self, other: &Self) -> bool {
        &&& self.access_key_id@ == other.access_key_id@
        &&& self.secret_access_key@ == other.secret_access_key@
        &&& self.region@ == other.region@
        &&& match (self.session_token, other.session_token) {
            (Some(a), Some(b)) => a@ == b@,
            (None, None) => true,
            _ => false,
        }
    }
}

impl AwsCredentials {
    /// Whether the record names at least an access key id and a secret key.
    pub fn is_configured(&self) -> (b: bool)
        ensures
            b == self@.is_configured(),
    {
        !self.access_key_id.as_str().is_empty() && !self.secret_access_key.as_str().is_empty()
    }

    /// The session token to hand to the child, with the empty token treated
    /// as absent.
    pub fn effective_token(&self) -> (t: Option<String>)
        ensures
            match t {
                Some(s) => self@.effective_token() == Some(s@),
                None => self@.effective_token() is None,
            },
    {
        match &self.session_token {
            Some(s) => if s.as_str().is_empty() {
                None
            } else {
                Some(s.clone())
            },
            None => None,
        }
    }
}

} // verus!
