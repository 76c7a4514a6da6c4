use vstd::prelude::*;
use aws_smithy_types::DateTime;
use aws_smithy_types::date_time::Format;

verus! {

/// An object of the storage bucket as listed.
pub struct AwsObject {
    pub path: String,
    pub modified: String,
    pub size: usize,
}

/// The RFC 3339 text that aws-smithy-types writes for an instant given as
/// seconds and nanoseconds since the UNIX epoch, when it can write one.
pub uninterp spec fn smithy_date_time_text(secs: int, nanos: int) -> Option<Seq<char>>;

/// `DateTime::from_secs_and_nanos(secs, nanos).fmt(Format::DateTime)`; the
/// crate refuses instants that its calendar library cannot represent.
#[verifier::external_body]
fn format_date_time(secs: i64, nanos: u32) -> (r: Option<String>)
    requires
        nanos < 1_000_000_000,
    ensures
        match r {
            Some(t) => smithy_date_time_text(secs as int, nanos as int) == Some(t@),
            None => smithy_date_time_text(secs as int, nanos as int) is None,
        },
{
    match DateTime::from_secs_and_nanos(secs, nanos).fmt(Format::DateTime) {
        Ok(t) => Some(t),
        Err(_) => None,
    }
}

impl AwsObject {
    /// Builds the listing entry of a bucket object from what the object reports:
    /// its key, its last-modified instant (seconds and nanoseconds since the
    /// epoch) and its size. A missing key gives an empty path, a missing time
    /// gives `"Unknown"`, a missing size gives zero, and the size is taken as
    /// `usize` the way `as` converts it. There is no entry when the time cannot
    /// be written, where the listing gives up.
    pub fn from(key: Option<String>, last_modified: Option<(i64, u32)>, size: Option<i64>) -> (o:
        Option<Self>)
        requires
            last_modified matches Some(t) ==> t.1 < 1_000_000_000,
        ensures
            o is None <==> (last_modified matches Some(t) && smithy_date_time_text(
                t.0 as int,
                t.1 as int,
            ) is None),
            o matches Some(o) ==> {
                &&& o.path@ == (match key {
                    Some(k) => k@,
                    None => Seq::<char>::empty(),
                })
                &&& o.modified@ == (match last_modified {
                    Some(t) => smithy_date_time_text(t.0 as int, t.1 as int)->0,
                    None => "Unknown"@,
                })
                &&& o.size == (match size {
                    Some(s) => s as usize,
                    None => 0usize,
                })
            },
    {
        let modified = match last_modified {
            Some((secs, nanos)) => match format_date_time(secs, nanos) {
                Some(t) => t,
                None => {
                    return None;
                },
            },
            None => String::from_str("Unknown"),
        };
        let path = match key {
            Some(k) => k,
            None => String::new(),
        };
        let size = match size {
            Some(s) => s as usize,
            None => 0,
        };
        Some(AwsObject { path, modified, size })
    }
}

} // verus!
