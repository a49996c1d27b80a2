//! Which capture and playback device a session uses, decided from the names
//! that the host reports.
use vstd::prelude::*;

verus! {

/// Whether `needle` occurs in `haystack` as a run of adjacent characters.
pub open spec fn occurs_in(needle: Seq<char>, haystack: Seq<char>) -> bool {
    exists|i: int|
        0 <= i && i + needle.len() <= haystack.len() && #[trigger] haystack.subrange(
            i,
            i + needle.len(),
        ) == needle
}

/// `str::contains` with a string as the pattern: whether the pattern
/// matches a part of the text.
#[verifier::external_body]
fn contains(haystack: &str, needle: &str) -> (found: bool)
    ensures
        found == occurs_in(needle@, haystack@),
{
    haystack.contains(needle)
}

/// Whether each of the first `upto` devices has a name and that name does
/// not hold `wanted`.
pub open spec fn none_before(names: Seq<Option<String>>, wanted: Seq<char>, upto: int) -> bool {
    forall|j: int|
        0 <= j < upto ==> (#[trigger] names[j]) is Some && !occurs_in(wanted, names[j]->Some_0@)
}

/// Whether the device at position `at` is the first whose name holds
/// `wanted`, and every device before it has a name.
pub open spec fn first_match(names: Seq<Option<String>>, wanted: Seq<char>, at: int) -> bool {
    &&& 0 <= at < names.len()
    &&& none_before(names, wanted, at)
    &&& names[at] is Some
    &&& occurs_in(wanted, names[at]->Some_0@)
}

/// Whether the search for `wanted` finds nothing: it comes to the end of the
/// list, or to a device whose name could not be read, before any name holds
/// `wanted`.
pub open spec fn no_match(names: Seq<Option<String>>, wanted: Seq<char>) -> bool {
    exists|stop: int|
        {
            &&& 0 <= stop <= names.len()
            &&& #[trigger] none_before(names, wanted, stop)
            &&& stop < names.len() ==> names[stop] is None
        }
}

/// At most one device is the first match.
pub proof fn lemma_first_match_is_unique(
    names: Seq<Option<String>>,
    wanted: Seq<char>,
    a: int,
    b: int,
)
    requires
        first_match(names, wanted, a),
        first_match(names, wanted, b),
    ensures
        a == b,
{
    if a < b {
        assert(names[a] is Some && !occurs_in(wanted, names[a]->Some_0@));
    }
    if b < a {
        assert(names[b] is Some && !occurs_in(wanted, names[b]->Some_0@));
    }
}

/// A search cannot both find a device and find nothing.
pub proof fn lemma_match_excludes_no_match(names: Seq<Option<String>>, wanted: Seq<char>, at: int)
    requires
        first_match(names, wanted, at),
    ensures
        !no_match(names, wanted),
{
    assert forall|stop: int|
        0 <= stop <= names.len() && #[trigger] none_before(names, wanted, stop) && (stop
            < names.len() ==> names[stop] is None) implies false by {
        if stop > at {
            assert(names[at] is Some && !occurs_in(wanted, names[at]->Some_0@));
        } else if stop < at {
            assert(names[stop] is Some);
        }
    }
}

/// Looks through the devices in the order the host lists them, each given by
/// its name or by `None` where the name could not be read, for the first
/// whose name holds `wanted`. A device without a name ends the search.
pub fn find_device(names: &Vec<Option<String>>, wanted: &str) -> (found: Option<usize>)
    ensures
        found is Some ==> first_match(names@, wanted@, found->Some_0 as int),
        found is None <==> no_match(names@, wanted@),
        forall|at: int| first_match(names@, wanted@, at) ==> found == Some(at as usize),
{
    let mut i: usize = 0;
    while i < names.len()
        invariant
            i <= names@.len(),
            none_before(names@, wanted@, i as int),
        decreases names@.len() - i,
    {
        match &names[i] {
            Some(name) => {
                if contains(name.as_str(), wanted) {
                    proof {
                        lemma_match_excludes_no_match(names@, wanted@, i as int);
                        assert forall|at: int| first_match(names@, wanted@, at) implies at
                            == i by {
                            lemma_first_match_is_unique(names@, wanted@, at, i as int);
                        }
                    }
                    return Some(i);
                }
            },
            None => {
                proof {
                    assert forall|at: int| first_match(names@, wanted@, at) implies false by {
                        lemma_match_excludes_no_match(names@, wanted@, at);
                    }
                }
                return None;
            },
        }
        i += 1;
    }
    proof {
        assert forall|at: int| first_match(names@, wanted@, at) implies false by {
            lemma_match_excludes_no_match(names@, wanted@, at);
        }
    }
    None
}

/// The device that a session uses in one direction.
#[derive(Clone, Copy, Debug, PartialEq, Eq, Structural)]
pub enum DeviceChoice {
    /// The device at this position of the host's list.
    Listed(usize),
    /// The host's default device.
    Default,
}

/// Why no session can be made.
#[derive(Clone, Copy, Debug, PartialEq, Eq, Structural)]
pub enum AudioError {
    /// No capture device matches and the host has no default one.
    NoInputDevice,
    /// No playback device matches and the host has no default one.
    NoOutputDevice,
    /// A queue of the session cannot be made.
    QueueTooLarge,
}

impl AudioError {
    /// The error in words.
    pub fn message(&self) -> (text: &'static str)
        ensures
            *self == AudioError::NoInputDevice ==> text@ == "no input device available"@,
            *self == AudioError::NoOutputDevice ==> text@ == "no output device available"@,
            *self == AudioError::QueueTooLarge ==> text@ == "queue too large"@,
    {
        match self {
            AudioError::NoInputDevice => "no input device available",
            AudioError::NoOutputDevice => "no output device available",
            AudioError::QueueTooLarge => "queue too large",
        }
    }
}

/// Whether `choice` is the right pick among `names` for `wanted`.
pub open spec fn chosen(
    names: Seq<Option<String>>,
    wanted: Seq<char>,
    has_default: bool,
    choice: Option<DeviceChoice>,
) -> bool {
    match choice {
        Some(DeviceChoice::Listed(at)) => first_match(names, wanted, at as int),
        Some(DeviceChoice::Default) => no_match(names, wanted) && has_default,
        None => no_match(names, wanted) && !has_default,
    }
}

/// Picks the device for one direction: the first listed device whose name
/// holds `wanted`, else the host's default device, else none.
pub fn choose_device(names: &Vec<Option<String>>, wanted: &str, has_default: bool) -> (choice:
    Option<DeviceChoice>)
    ensures
        chosen(names@, wanted@, has_default, choice),
{
    match find_device(names, wanted) {
        Some(at) => Some(DeviceChoice::Listed(at)),
        None => {
            if has_default {
                Some(DeviceChoice::Default)
            } else {
                None
            }
        },
    }
}

/// Picks the capture and the playback device of a session. The capture
/// device is looked for first, so that where both are missing the error
/// names the capture device.
pub fn choose_devices(
    inputs: &Vec<Option<String>>,
    wanted_input: &str,
    has_default_input: bool,
    outputs: &Vec<Option<String>>,
    wanted_output: &str,
    has_default_output: bool,
) -> (choice: Result<(DeviceChoice, DeviceChoice), AudioError>)
    ensures
        match choice {
            Ok((input, output)) => {
                &&& chosen(inputs@, wanted_input@, has_default_input, Some(input))
                &&& chosen(outputs@, wanted_output@, has_default_output, Some(output))
            },
            Err(AudioError::NoInputDevice) => chosen(
                inputs@,
                wanted_input@,
                has_default_input,
                None,
            ),
            Err(AudioError::NoOutputDevice) => {
                &&& !chosen(inputs@, wanted_input@, has_default_input, None)
                &&& chosen(outputs@, wanted_output@, has_default_output, None)
            },
            Err(AudioError::QueueTooLarge) => false,
        },
{
    let input: DeviceChoice = match choose_device(inputs, wanted_input, has_default_input) {
        Some(choice) => choice,
        None => {
            return Err(AudioError::NoInputDevice);
        },
    };
    proof {
        if let DeviceChoice::Listed(at) = input {
            lemma_match_excludes_no_match(inputs@, wanted_input@, at as int);
        }
    }
    match choose_device(outputs, wanted_output, has_default_output) {
        Some(output) => Ok((input, output)),
        None => Err(AudioError::NoOutputDevice),
    }
}

} // verus!
