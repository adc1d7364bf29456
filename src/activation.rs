use vstd::prelude::*;
use vstd::string::*;

use crate::error::Error;
use crate::fd::OwnedFd;
use crate::names::{split_colon, split_on_colon, string_views};
use crate::number::{all_digits, decimal_value, parse_u32, parsed_u32, unsigned_digits};

verus! {

/// The first descriptor number that the supervisor passes; 0 to 2 are the
/// standard streams.
pub const SD_LISTEN_FDS_START: u32 = 3;

/// The text of an optional string slice.
pub open spec fn text_of(s: Option<&str>) -> Option<Seq<char>> {
    match s {
        Some(t) => Some(t@),
        None => None,
    }
}

/// The text of an optional owned string.
pub open spec fn name_text(s: Option<String>) -> Option<Seq<char>> {
    match s {
        Some(t) => Some(t@),
        None => None,
    }
}

/// How many descriptors the environment hands over, given the texts of
/// `LISTEN_PID` and `LISTEN_FDS` and this process's id; an error where a
/// present value is malformed or the count would run past the last number.
pub open spec fn descriptor_count(
    listen_pid: Option<Seq<char>>,
    own_pid: u32,
    listen_fds: Option<Seq<char>>,
) -> Result<nat, Error> {
    match listen_pid {
        None => Ok(0),
        Some(p) => match parsed_u32(p) {
            None => Err(Error::MalformedEnv),
            Some(pid) => if pid != own_pid {
                Ok(0)
            } else {
                match listen_fds {
                    None => Ok(0),
                    Some(f) => match parsed_u32(f) {
                        None => Err(Error::MalformedEnv),
                        Some(n) => if n > u32::MAX - SD_LISTEN_FDS_START {
                            Err(Error::MalformedEnv)
                        } else {
                            Ok(n as nat)
                        },
                    },
                }
            },
        },
    }
}

/// The name of the descriptor at position `i`, given the text of
/// `LISTEN_FDNAMES`: the piece at that position of the `:`-separated list,
/// and none where the list is absent, empty, or too short.
pub open spec fn name_at(listen_fdnames: Option<Seq<char>>, i: int) -> Option<Seq<char>> {
    match listen_fdnames {
        None => None,
        Some(n) => if n.len() == 0 || i >= split_on_colon(n).len() {
            None
        } else {
            Some(split_on_colon(n)[i])
        },
    }
}

/// Whether `entries` is the activation result for `count` descriptors named
/// after `listen_fdnames`: numbers ascending from the start number, each with
/// the name at its position.
pub open spec fn is_activation_result(
    entries: Seq<(Option<String>, OwnedFd)>,
    count: nat,
    listen_fdnames: Option<Seq<char>>,
) -> bool {
    &&& entries.len() == count
    &&& forall|i: int|
        0 <= i < count ==> {
            &&& (#[trigger] entries[i]).1@ == SD_LISTEN_FDS_START + i
            &&& name_text(entries[i].0) == name_at(listen_fdnames, i)
        }
}

/// Decodes the socket activation environment: the values of `LISTEN_PID`,
/// `LISTEN_FDS` and `LISTEN_FDNAMES` (`None` where a variable is unset) and
/// the id of the running process.
///
/// Each descriptor in the result is owned by the caller from then on. The
/// supervisor hands the descriptors over once: decoding the same environment a
/// second time would claim the same numbers again, and must not be done.
pub fn decode(
    listen_pid: Option<&str>,
    own_pid: u32,
    listen_fds: Option<&str>,
    listen_fdnames: Option<&str>,
) -> (r: Result<Vec<(Option<String>, OwnedFd)>, Error>)
    ensures
        match descriptor_count(text_of(listen_pid), own_pid, text_of(listen_fds)) {
            Err(e) => r == Err::<Vec<(Option<String>, OwnedFd)>, Error>(e),
            Ok(n) => r is Ok && is_activation_result(r->Ok_0@, n, text_of(listen_fdnames)),
        },
        // Without `LISTEN_PID` there is nothing, whatever else is set.
        listen_pid is None ==> r is Ok && r->Ok_0@.len() == 0,
        // `LISTEN_PID` names another process: nothing, whatever else is set.
        listen_pid is Some && parsed_u32(listen_pid->Some_0@) is Some
            && parsed_u32(listen_pid->Some_0@)->Some_0 != own_pid ==> r is Ok && r->Ok_0@.len()
            == 0,
        // `LISTEN_PID` names this process but `LISTEN_FDS` is unset: nothing.
        listen_pid is Some && parsed_u32(listen_pid->Some_0@) == Some(own_pid) && listen_fds is None
            ==> r is Ok && r->Ok_0@.len() == 0,
        // A count in digits so large that the last number would pass `u32::MAX`: an error.
        listen_pid is Some && parsed_u32(listen_pid->Some_0@) == Some(own_pid) && listen_fds is Some
            && unsigned_digits(listen_fds->Some_0@).len() > 0 && all_digits(
            unsigned_digits(listen_fds->Some_0@),
        ) && decimal_value(unsigned_digits(listen_fds->Some_0@)) > u32::MAX - SD_LISTEN_FDS_START
            ==> r == Err::<Vec<(Option<String>, OwnedFd)>, Error>(Error::MalformedEnv),
{
    let pid = match listen_pid {
        None => return Ok(Vec::new()),
        Some(p) => p,
    };
    let pid = match parse_u32(pid) {
        None => return Err(Error::MalformedEnv),
        Some(v) => v,
    };
    if pid != own_pid {
        return Ok(Vec::new());
    }
    let fds = match listen_fds {
        None => return Ok(Vec::new()),
        Some(f) => f,
    };
    let count = match parse_u32(fds) {
        None => return Err(Error::MalformedEnv),
        Some(v) => v,
    };
    if count > u32::MAX - SD_LISTEN_FDS_START {
        return Err(Error::MalformedEnv);
    }
    let names: Vec<String> = match listen_fdnames {
        Some(n) => if n.is_empty() {
            Vec::new()
        } else {
            split_colon(n)
        },
        None => Vec::new(),
    };
    let ghost names_text = text_of(listen_fdnames);
    assert forall|j: int| 0 <= j < names@.len() implies name_at(names_text, j) == Some(
        #[trigger] names@[j]@,
    ) by {
        assert(string_views(names@)[j] == names@[j]@);
    }
    assert forall|j: int| j >= names@.len() implies #[trigger] name_at(names_text, j) is None by {
        if names_text is Some && names_text->Some_0.len() > 0 {
            assert(string_views(names@).len() == names@.len());
        }
    }
    let mut result: Vec<(Option<String>, OwnedFd)> = Vec::new();
    let mut i: u32 = 0;
    while i < count
        invariant
            i <= count <= u32::MAX - SD_LISTEN_FDS_START,
            names_text == text_of(listen_fdnames),
            forall|j: int|
                0 <= j < names@.len() ==> name_at(names_text, j) == Some(
                    #[trigger] names@[j]@,
                ),
            forall|j: int| j >= names@.len() ==> #[trigger] name_at(names_text, j) is None,
            is_activation_result(result@, i as nat, names_text),
        decreases count - i,
    {
        let name = if (i as usize) < names.len() {
            Some(names[i as usize].clone())
        } else {
            None
        };
        let fd = OwnedFd::from_raw(SD_LISTEN_FDS_START + i);
        let ghost prev = result@;
        result.push((name, fd));
        assert(result@ =~= prev.push((name, fd)));
        i = i + 1;
    }
    Ok(result)
}

} // verus!
