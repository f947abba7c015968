//! Who receives e-mail notifications: flight completions go to every watcher with an
//! address; geofence exit alerts only to verified addresses.

use vstd::prelude::*;

verus! {

/// The recipient of a notification: the address, and the name "first last" to address
/// it to; none without an address, or when a verified address is required and this one
/// is not verified.
pub open spec fn recipient_spec(
    email: Option<Seq<char>>,
    require_verified: bool,
    verified: bool,
    first_name: Seq<char>,
    last_name: Seq<char>,
) -> Option<(Seq<char>, Seq<char>)> {
    match email {
        Some(e) => if require_verified && !verified {
            None
        } else {
            Some((e, first_name + " "@ + last_name))
        },
        None => None,
    }
}

/// The address and display name to send a notification to (see `recipient_spec`).
pub fn notification_recipient(
    email: &Option<String>,
    require_verified: bool,
    verified: bool,
    first_name: &str,
    last_name: &str,
) -> (r: Option<(String, String)>)
    ensures
        match r {
            Some((e, n)) => recipient_spec(
                match email {
                    Some(s) => Some(s@),
                    None => None,
                },
                require_verified,
                verified,
                first_name@,
                last_name@,
            ) == Some((e@, n@)),
            None => recipient_spec(
                match email {
                    Some(s) => Some(s@),
                    None => None,
                },
                require_verified,
                verified,
                first_name@,
                last_name@,
            ) is None,
        },
{
    match email {
        Some(e) => {
            if require_verified && !verified {
                None
            } else {
                let mut name = String::from_str(first_name);
                name.append(" ");
                name.append(last_name);
                proof {
                    reveal_strlit(" ");
                }
                Some((e.clone(), name))
            }
        },
        None => None,
    }
}

} // verus!
