//! The caller-owned notification message.

use vstd::prelude::*;
use vstd::string::StringExecFns;

verus! {

/// The default encryption salt, used when a message enables encryption
/// without providing one. Kept byte for byte: changing it would break
/// compatibility with keys already deployed.
pub open spec fn spec_default_salt() -> Seq<char> {
    "A9F361C70BCB6182"@
}

/// Default encryption salt, you should really provide your own.
pub fn default_salt() -> (r: &'static str)
    ensures
        r@ == spec_default_salt(),
{
    "A9F361C70BCB6182"
}

/// SimplePush message data
pub struct Message {
    /// Your simplepush.io key
    pub key: String,
    /// Title of the message
    pub title: Option<String>,
    /// Message body
    pub message: String,
    /// The event the message should be associated with
    pub event: Option<String>,
    /// Actions for feedback message, only simple actions are supported at this time
    pub actions: Option<Vec<String>>,
    /// If true, the message will be sent end-to-end encrypted using the provided password & salt
    pub encrypt: bool,
    /// Password if the message is to be encrypted
    pub password: Option<String>,
    /// If set, this salt will be used for encryption, otherwise the default salt will be used
    pub salt: Option<String>,
}

impl Message {
    /// The password and salt a message needs before its fields can be
    /// encrypted are both present. Constructors establish this; the
    /// payload assembler assumes it in encrypted mode.
    pub open spec fn encryption_inputs_present(self) -> bool {
        self.encrypt ==> self.password is Some && self.salt is Some
    }

    /// Create a new notification message
    pub fn new(
        key: &str,
        title: Option<&str>,
        message: &str,
        event: Option<&str>,
        actions: Option<Vec<&str>>,
    ) -> (r: Self)
        ensures
            r.key@ == key@,
            r.title.deep_view() == title.deep_view(),
            r.message@ == message@,
            r.event.deep_view() == event.deep_view(),
            r.actions.deep_view() == actions.deep_view(),
            !r.encrypt,
            r.password is None,
            r.salt is None,
    {
        Message {
            key: String::from_str(key),
            title: Self::stringify(title),
            message: String::from_str(message),
            event: Self::stringify(event),
            actions: Self::stringify_vec(actions),
            encrypt: false,
            password: None,
            salt: None,
        }
    }

    /// Create a new notification message with encryption
    pub fn new_with_encryption(
        key: &str,
        title: Option<&str>,
        message: &str,
        event: Option<&str>,
        actions: Option<Vec<&str>>,
        password: &str,
        salt: Option<&str>,
    ) -> (r: Self)
        ensures
            r.key@ == key@,
            r.title.deep_view() == title.deep_view(),
            r.message@ == message@,
            r.event.deep_view() == event.deep_view(),
            r.actions.deep_view() == actions.deep_view(),
            r.encrypt,
            r.password matches Some(p) && p@ == password@,
            r.salt matches Some(s) && s@ == (match salt {
                Some(v) => v@,
                None => spec_default_salt(),
            }),
            r.encryption_inputs_present(),
    {
        let chosen_salt: &str = match salt {
            Some(v) => v,
            None => default_salt(),
        };
        Message {
            key: String::from_str(key),
            title: Self::stringify(title),
            message: String::from_str(message),
            event: Self::stringify(event),
            actions: Self::stringify_vec(actions),
            encrypt: true,
            password: Some(String::from_str(password)),
            salt: Some(String::from_str(chosen_salt)),
        }
    }

    fn stringify(s: Option<&str>) -> (r: Option<String>)
        ensures
            r.deep_view() == s.deep_view(),
    {
        match s {
            Some(t) => Some(String::from_str(t)),
            None => None,
        }
    }

    fn stringify_vec(s: Option<Vec<&str>>) -> (r: Option<Vec<String>>)
        ensures
            r.deep_view() == s.deep_view(),
    {
        match s {
            Some(v) => {
                let mut out: Vec<String> = Vec::new();
                let mut i: usize = 0;
                while i < v.len()
                    invariant
                        i <= v.len(),
                        out@.len() == i,
                        forall|j: int| 0 <= j < i as int ==> #[trigger] out@[j]@ == v@[j]@,
                    decreases v.len() - i,
                {
                    let ghost prev = out@;
                    out.push(String::from_str(v[i]));
                    proof {
                        assert forall|j: int|
                            0 <= j < i as int + 1 implies #[trigger] out@[j]@ == v@[j]@ by {
                            if j < i as int {
                                assert(out@[j] == prev[j]);
                            }
                        }
                    }
                    i += 1;
                }
                proof {
                    assert(out.deep_view() =~~= v.deep_view());
                }
                Some(out)
            },
            None => None,
        }
    }
}

} // verus!
