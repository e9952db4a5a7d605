//! Application launching and window selection.
use vstd::prelude::*;
use vstd::string::StringExecFns;
use crate::utils::text::{
    ends_with, has_suffix, is_substring, lowercase, str_contains, to_lowercase,
};

verus! {

/// An identifier with a dot that is not an `.app` bundle path is a bundle identifier.
pub open spec fn is_bundle_identifier(app: Seq<char>) -> bool {
    is_substring("."@, app) && !has_suffix(app, ".app"@)
}

/// The `open` flag for an application: `-b` for a bundle identifier, `-a` for a name.
pub fn open_selector(app_identifier: &str) -> (r: &'static str)
    ensures
        r@ == (if is_bundle_identifier(app_identifier@) {
            "-b"@
        } else {
            "-a"@
        }),
{
    if str_contains(app_identifier, ".") && !ends_with(app_identifier, ".app") {
        "-b"
    } else {
        "-a"
    }
}

/// The AppleScript that activates an application by name.
pub fn activate_script(app_identifier: &str) -> (r: String)
    ensures
        r@ == "tell application \""@ + app_identifier@ + "\" to activate"@,
{
    String::from_str("tell application \"").concat(app_identifier).concat("\" to activate")
}

/// The AppleScript that asks an application by name to quit.
pub fn quit_script(app_identifier: &str) -> (r: String)
    ensures
        r@ == "tell application \""@ + app_identifier@ + "\" to quit"@,
{
    String::from_str("tell application \"").concat(app_identifier).concat("\" to quit")
}

/// A step of launching an application: `open` it (by bundle identifier or name), else ask
/// it to activate; it is launched when either succeeds, and not found when both fail.
#[derive(Debug, Clone, Copy, PartialEq, Eq, Structural)]
pub enum LaunchStep {
    Open,
    Activate,
    Launched,
    NotFound,
}

/// The step after `step`, given whether its command succeeded.
pub open spec fn next_launch_step_spec(step: LaunchStep, succeeded: bool) -> LaunchStep {
    match step {
        LaunchStep::Open => if succeeded {
            LaunchStep::Launched
        } else {
            LaunchStep::Activate
        },
        LaunchStep::Activate => if succeeded {
            LaunchStep::Launched
        } else {
            LaunchStep::NotFound
        },
        other => other,
    }
}

pub fn next_launch_step(step: LaunchStep, succeeded: bool) -> (r: LaunchStep)
    ensures
        r == next_launch_step_spec(step, succeeded),
{
    match step {
        LaunchStep::Open => if succeeded {
            LaunchStep::Launched
        } else {
            LaunchStep::Activate
        },
        LaunchStep::Activate => if succeeded {
            LaunchStep::Launched
        } else {
            LaunchStep::NotFound
        },
        other => other,
    }
}

/// Launching ends after at most two commands: whatever they answer, the second step after
/// `Open` is `Launched` or `NotFound`, and it is `Launched` exactly when one of them succeeded.
pub proof fn law_launch_finishes(a: bool, b: bool)
    ensures
        ({
            let first = next_launch_step_spec(LaunchStep::Open, a);
            let end = if first == LaunchStep::Launched {
                first
            } else {
                next_launch_step_spec(first, b)
            };
            &&& end == LaunchStep::Launched || end == LaunchStep::NotFound
            &&& end == LaunchStep::Launched <==> (a || b)
        }),
{
}

/// The bounds of a window as the window server reports them; a missing entry reads as zero.
#[derive(Debug, Clone, Copy)]
pub struct BoundsRecord {
    pub x: Option<i64>,
    pub y: Option<i64>,
    pub width: Option<i64>,
    pub height: Option<i64>,
}

/// A window as the window server lists it; each entry may be missing.
#[derive(Debug)]
pub struct WindowRecord {
    pub number: Option<i64>,
    pub layer: Option<i64>,
    pub owner_pid: Option<i64>,
    pub owner_name: Option<String>,
    pub name: Option<String>,
    pub bounds: Option<BoundsRecord>,
}

/// The window a selection found, with its missing entries defaulted.
#[derive(Debug)]
pub struct WindowMatch {
    pub window_id: u64,
    pub pid: i32,
    pub owner_name: String,
    pub title: String,
    pub x: i64,
    pub y: i64,
    pub width: i64,
    pub height: i64,
}

/// An optional number, or zero.
pub open spec fn or_zero(n: Option<i64>) -> i64 {
    match n {
        Some(v) => v,
        None => 0,
    }
}

/// The characters of an optional string, or none.
pub open spec fn text_or_empty(s: Option<String>) -> Seq<char> {
    match s {
        Some(v) => v@,
        None => Seq::empty(),
    }
}

/// A window's bounds: its reported entries, or 800 by 600 at the origin when none are reported.
pub open spec fn bounds_of(w: WindowRecord) -> (i64, i64, i64, i64) {
    match w.bounds {
        Some(b) => (or_zero(b.x), or_zero(b.y), or_zero(b.width), or_zero(b.height)),
        None => (0, 0, 800, 600),
    }
}

/// Whether a window is the one sought: a normal window layer (at most 5), the requested
/// window number if one is given, else an owner whose name contains, or is contained in,
/// the requested application name (case-insensitively), and at least 50 by 50 in size.
pub open spec fn window_qualifies(w: WindowRecord, app_name: Option<Seq<char>>, window_id: Option<u64>) -> bool {
    let (x, y, width, height) = bounds_of(w);
    &&& or_zero(w.layer) <= 5
    &&& match window_id {
        Some(t) => (or_zero(w.number) as u64) == t,
        None => match app_name {
            Some(a) => {
                let target = lowercase(a);
                let owner = lowercase(text_or_empty(w.owner_name));
                is_substring(target, owner) || is_substring(owner, target)
            },
            None => true,
        },
    }
    &&& width >= 50
    &&& height >= 50
}

/// A match describes a window record.
pub open spec fn describes(m: WindowMatch, w: WindowRecord) -> bool {
    let (x, y, width, height) = bounds_of(w);
    &&& m.window_id == (or_zero(w.number) as u64)
    &&& m.pid == (or_zero(w.owner_pid) as i32)
    &&& m.owner_name@ == text_or_empty(w.owner_name)
    &&& m.title@ == text_or_empty(w.name)
    &&& m.x == x && m.y == y && m.width == width && m.height == height
}

fn copy_or_empty(s: &Option<String>) -> (r: String)
    ensures
        r@ == text_or_empty(*s),
{
    match s {
        Some(v) => String::from_str(v.as_str()),
        None => String::new(),
    }
}

fn qualifies(w: &WindowRecord, target_lower: &Option<String>, app_name: Option<&str>, window_id: Option<u64>) -> (r: bool)
    requires
        match app_name {
            Some(a) => target_lower matches Some(t) && t@ == lowercase(a@),
            None => target_lower is None,
        },
    ensures
        r == window_qualifies(
            *w,
            match app_name {
                Some(a) => Some(a@),
                None => None,
            },
            window_id,
        ),
{
    let layer = match w.layer {
        Some(l) => l,
        None => 0,
    };
    if layer > 5 {
        return false;
    }
    let number = match w.number {
        Some(n) => n,
        None => 0,
    };
    #[verifier::truncate]
    let wid = number as u64;
    match window_id {
        Some(t) => {
            if wid != t {
                return false;
            }
        },
        None => {
            match target_lower {
                Some(target) => {
                    let owner = copy_or_empty(&w.owner_name);
                    let owner_lower = to_lowercase(owner.as_str());
                    if !str_contains(owner_lower.as_str(), target.as_str()) && !str_contains(
                        target.as_str(),
                        owner_lower.as_str(),
                    ) {
                        return false;
                    }
                },
                None => {},
            }
        },
    }
    let (width, height): (i64, i64) = match w.bounds {
        Some(b) => (
            match b.width {
                Some(v) => v,
                None => 0,
            },
            match b.height {
                Some(v) => v,
                None => 0,
            },
        ),
        None => (800, 600),
    };
    width >= 50 && height >= 50
}

fn describe(w: &WindowRecord) -> (r: WindowMatch)
    ensures
        describes(r, *w),
{
    let (x, y, width, height): (i64, i64, i64, i64) = match w.bounds {
        Some(b) => (
            match b.x {
                Some(v) => v,
                None => 0,
            },
            match b.y {
                Some(v) => v,
                None => 0,
            },
            match b.width {
                Some(v) => v,
                None => 0,
            },
            match b.height {
                Some(v) => v,
                None => 0,
            },
        ),
        None => (0, 0, 800, 600),
    };
    let number = match w.number {
        Some(n) => n,
        None => 0,
    };
    let pid = match w.owner_pid {
        Some(p) => p,
        None => 0,
    };
    #[verifier::truncate]
    let window_id = number as u64;
    #[verifier::truncate]
    let pid = pid as i32;
    WindowMatch {
        window_id,
        pid,
        owner_name: copy_or_empty(&w.owner_name),
        title: copy_or_empty(&w.name),
        x,
        y,
        width,
        height,
    }
}

/// The first listed window that qualifies, described; none when no window qualifies.
pub fn select_window(windows: &Vec<WindowRecord>, app_name: Option<&str>, window_id: Option<u64>) -> (r: Option<WindowMatch>)
    ensures
        ({
            let app = match app_name {
                Some(a) => Some(a@),
                None => None,
            };
            match r {
                Some(m) => exists|i: int|
                    0 <= i < windows@.len() && window_qualifies(#[trigger] windows@[i], app, window_id)
                        && describes(m, windows@[i]) && forall|j: int|
                        0 <= j < i ==> !window_qualifies(#[trigger] windows@[j], app, window_id),
                None => forall|i: int|
                    0 <= i < windows@.len() ==> !window_qualifies(#[trigger] windows@[i], app, window_id),
            }
        }),
        window_id matches Some(t) ==> (r matches Some(m) ==> m.window_id == t),
        r matches Some(m) ==> m.width >= 50 && m.height >= 50,
{
    let target_lower = match app_name {
        Some(a) => Some(to_lowercase(a)),
        None => None,
    };
    let ghost app = match app_name {
        Some(a) => Some(a@),
        None => None,
    };
    let mut i: usize = 0;
    while i < windows.len()
        invariant
            app == (match app_name {
                Some(a) => Some(a@),
                None => None,
            }),
            match app_name {
                Some(a) => target_lower matches Some(t) && t@ == lowercase(a@),
                None => target_lower is None,
            },
            i <= windows@.len(),
            forall|j: int| 0 <= j < i ==> !window_qualifies(#[trigger] windows@[j], app, window_id),
        decreases windows@.len() - i,
    {
        if qualifies(&windows[i], &target_lower, app_name, window_id) {
            let m = describe(&windows[i]);
            assert(window_qualifies(windows@[i as int], app, window_id));
            return Some(m);
        }
        i = i + 1;
    }
    None
}

/// A window asked for by number is only ever that window: whatever the application name,
/// a window qualifies only when its number is the one requested, and the match found
/// carries that number; a window of any other number never qualifies.
pub proof fn law_window_id_selects_that_window(w: WindowRecord, app: Option<Seq<char>>, t: u64, m: WindowMatch)
    ensures
        window_qualifies(w, app, Some(t)) ==> (or_zero(w.number) as u64) == t,
        window_qualifies(w, app, Some(t)) && describes(m, w) ==> m.window_id == t,
        (or_zero(w.number) as u64) != t ==> !window_qualifies(w, app, Some(t)),
{
}

/// A window of a normal layer, of the requested number and at least 50 by 50 qualifies,
/// whatever its owner.
pub proof fn law_numbered_window_qualifies(w: WindowRecord, app: Option<Seq<char>>, t: u64)
    requires
        or_zero(w.layer) <= 5,
        (or_zero(w.number) as u64) == t,
        bounds_of(w).2 >= 50,
        bounds_of(w).3 >= 50,
    ensures
        window_qualifies(w, app, Some(t)),
{
}

/// Without a window number, a window qualifies only when its owner's name and the requested
/// application name, both lowercased, contain one another one way or the other; a window
/// on a layer above 5 or smaller than 50 by 50 never qualifies.
pub proof fn law_window_by_owner(w: WindowRecord, a: Seq<char>, window_id: Option<u64>)
    ensures
        window_qualifies(w, Some(a), None) ==> {
            let target = lowercase(a);
            let owner = lowercase(text_or_empty(w.owner_name));
            (exists|i: int| 0 <= i && i + target.len() <= owner.len() && #[trigger] owner.subrange(i, i + target.len()) == target)
                || (exists|i: int| 0 <= i && i + owner.len() <= target.len() && #[trigger] target.subrange(i, i + owner.len()) == owner)
        },
        or_zero(w.layer) > 5 ==> !window_qualifies(w, Some(a), window_id),
        bounds_of(w).2 < 50 || bounds_of(w).3 < 50 ==> !window_qualifies(w, Some(a), window_id),
{
}

} // verus!
