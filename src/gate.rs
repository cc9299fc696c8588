//! The policy that decides, once at process start, whether the backend is started automatically.
use vstd::prelude::*;

verus! {

/// The setting that, at `0`, turns automatic start off.
pub const AUTOSTART_ENV_VAR: &'static str = "AI_MENTOR_AUTOSTART_BACKEND";

/// Whether the opt-out setting holds exactly `0`.
pub open spec fn opted_out(flag: Option<Seq<char>>) -> bool {
    flag == Some(seq!['0'])
}

pub open spec fn autostart_enabled_spec(windows: bool, release_build: bool, flag: Option<Seq<char>>) -> bool {
    windows && release_build && !opted_out(flag)
}

pub open spec fn flag_view(flag: Option<&str>) -> Option<Seq<char>> {
    match flag {
        Some(v) => Some(v@),
        None => None,
    }
}

/// Automatic start runs only in a release build on Windows, unless the
/// opt-out setting `flag` is `0`. A setting that is absent or not valid
/// Unicode is passed as `None`.
pub fn autostart_enabled(windows: bool, release_build: bool, flag: Option<&str>) -> (r: bool)
    ensures
        r == autostart_enabled_spec(windows, release_build, flag_view(flag)),
{
    if !windows || !release_build {
        return false;
    }
    match flag {
        None => true,
        Some(v) => {
            let n = v.unicode_len();
            if n == 1 {
                let c = v.get_char(0);
                if c == '0' {
                    assert(v@ =~= seq!['0']);
                    false
                } else {
                    assert(v@[0] != seq!['0'][0]);
                    true
                }
            } else {
                assert(v@.len() != seq!['0'].len());
                true
            }
        },
    }
}

} // verus!
