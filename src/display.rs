//! The texts that the player shows of a session.

use vstd::prelude::*;
use vstd::string::*;

use crate::queue::texts;
use crate::session::{App, Status};

verus! {

/// Shown in place of a name for a path that has none.
pub const NO_FILE_NAME: &'static str = "[No file name]";

/// Shown in place of a name when no track is loaded.
pub const NO_TRACK: &'static str = "[Track Empty]";

/// The last component of `path`, as `std::path::Path::file_name` reads it.
pub uninterp spec fn file_name_of(path: Seq<char>) -> Option<Seq<char>>;

/// Relies on `std::path::Path::file_name`: the path's last component, or
/// nothing where it has none (a root, an empty path, or one ending in `..`). Text taken from a `&str` is valid
/// UTF-8, so the lossy conversion is exact.
#[verifier::external_body]
fn path_file_name(path: &str) -> (r: Option<String>)
    ensures
        match r {
            Some(n) => file_name_of(path@) == Some(n@),
            None => file_name_of(path@) is None,
        },
{
    match std::path::Path::new(path).file_name() {
        Some(x) => Some(x.to_string_lossy().into_owned()),
        None => None,
    }
}

/// The decimal digit for `d`.
pub open spec fn digit(d: int) -> char {
    if d <= 0 {
        '0'
    } else if d == 1 {
        '1'
    } else if d == 2 {
        '2'
    } else if d == 3 {
        '3'
    } else if d == 4 {
        '4'
    } else if d == 5 {
        '5'
    } else if d == 6 {
        '6'
    } else if d == 7 {
        '7'
    } else if d == 8 {
        '8'
    } else {
        '9'
    }
}

/// `n` in decimal, without leading zeros.
pub open spec fn decimal(n: nat) -> Seq<char>
    decreases n,
{
    if n < 10 {
        seq![digit(n as int)]
    } else {
        decimal(n / 10).push(digit((n % 10) as int))
    }
}

/// `n` in decimal, at least two digits wide.
pub open spec fn two_digits(n: nat) -> Seq<char> {
    if n < 10 {
        seq!['0', digit(n as int)]
    } else {
        decimal(n)
    }
}

/// `ms` milliseconds as whole minutes and seconds, `MM:SS`.
pub open spec fn clock_text(ms: nat) -> Seq<char> {
    let secs = ms / 1000;
    two_digits(secs / 60) + seq![':'] + two_digits(secs % 60)
}

/// What is shown for the track at `path`: its file name.
pub open spec fn name_text(path: Seq<char>) -> Seq<char> {
    match file_name_of(path) {
        Some(n) => n,
        None => NO_FILE_NAME@,
    }
}

/// `lines` joined by line breaks.
pub open spec fn join_lines(lines: Seq<Seq<char>>) -> Seq<char>
    decreases lines.len(),
{
    if lines.len() == 0 {
        Seq::empty()
    } else if lines.len() == 1 {
        lines[0]
    } else {
        join_lines(lines.drop_last()) + seq!['\n'] + lines.last()
    }
}

fn digit_str(d: u64) -> (r: &'static str)
    requires
        d < 10,
    ensures
        r@ == seq![digit(d as int)],
{
    match d {
        0 => {
            proof {
                reveal_strlit("0");
            }
            "0"
        },
        1 => {
            proof {
                reveal_strlit("1");
            }
            "1"
        },
        2 => {
            proof {
                reveal_strlit("2");
            }
            "2"
        },
        3 => {
            proof {
                reveal_strlit("3");
            }
            "3"
        },
        4 => {
            proof {
                reveal_strlit("4");
            }
            "4"
        },
        5 => {
            proof {
                reveal_strlit("5");
            }
            "5"
        },
        6 => {
            proof {
                reveal_strlit("6");
            }
            "6"
        },
        7 => {
            proof {
                reveal_strlit("7");
            }
            "7"
        },
        8 => {
            proof {
                reveal_strlit("8");
            }
            "8"
        },
        _ => {
            proof {
                reveal_strlit("9");
            }
            "9"
        },
    }
}

/// Appends `n` in decimal to `out`.
fn push_decimal(out: &mut String, n: u64)
    ensures
        final(out)@ == old(out)@ + decimal(n as nat),
    decreases n,
{
    if n >= 10 {
        push_decimal(out, n / 10);
    }
    out.append(digit_str(n % 10));
    assert(n >= 10 ==> decimal(n as nat) == decimal((n / 10) as nat).push(digit((n % 10) as int)));
}

/// Appends `n` in decimal to `out`, at least two digits wide.
fn push_two_digits(out: &mut String, n: u64)
    ensures
        final(out)@ == old(out)@ + two_digits(n as nat),
{
    if n < 10 {
        out.append(digit_str(0));
        out.append(digit_str(n));
        assert(two_digits(n as nat) == seq![digit(0)] + seq![digit(n as int)]);
    } else {
        push_decimal(out, n);
    }
}

/// `ms` milliseconds as `MM:SS`.
pub fn clock_str(ms: u64) -> (r: String)
    ensures
        r@ == clock_text(ms as nat),
{
    let secs = ms / 1000;
    let mut out = String::new();
    push_two_digits(&mut out, secs / 60);
    proof {
        reveal_strlit(":");
    }
    out.append(":");
    push_two_digits(&mut out, secs % 60);
    out
}

impl App {
    /// The current position as `MM:SS`, or `00:00` when it is not known.
    pub fn track_pos_as_str(&self) -> (r: String)
        ensures
            r@ == clock_text(
                match self.track_pos {
                    Some(p) => p as nat,
                    None => 0,
                },
            ),
    {
        let pos = match self.track_pos {
            Some(p) => p,
            None => 0,
        };
        clock_str(pos)
    }
}

/// The file name of the current track, or `NO_TRACK`.
pub fn get_track_name_str(app: &App) -> (r: String)
    ensures
        r@ == match app@.track_path {
            Some(p) => name_text(p),
            None => NO_TRACK@,
        },
{
    match &app.track_path {
        Some(path) => track_name(path.as_str()),
        None => NO_TRACK.to_owned(),
    }
}

/// The file name of the track at `path`, or `NO_FILE_NAME`.
pub fn track_name(path: &str) -> (r: String)
    ensures
        r@ == name_text(path@),
{
    match path_file_name(path) {
        Some(name) => name,
        None => NO_FILE_NAME.to_owned(),
    }
}

/// The current position as `MM:SS`.
pub fn get_track_pos_str(app: &App) -> (r: String)
    ensures
        r@ == clock_text(
            match app.track_pos {
                Some(p) => p as nat,
                None => 0,
            },
        ),
{
    app.track_pos_as_str()
}

/// The status, in words.
pub fn get_status_str(app: &App) -> (r: String)
    ensures
        r@ == match app.status {
            Status::Playing => "Playing"@,
            Status::Paused => "Paused"@,
            Status::Idle => "Idle"@,
        },
{
    match app.status {
        Status::Playing => "Playing".to_owned(),
        Status::Paused => "Paused".to_owned(),
        Status::Idle => "Idle".to_owned(),
    }
}

/// A mark shown while looping, and nothing otherwise.
pub fn get_loop_status_str(app: &App) -> (r: String)
    ensures
        r@ == if app.looping {
            "[Looped]"@
        } else {
            Seq::empty()
        },
{
    if app.looping {
        "[Looped]".to_owned()
    } else {
        String::new()
    }
}

/// The volume as a percentage of the recording's own loudness.
pub fn get_volume_str(app: &App) -> (r: String)
    ensures
        r@ == "Volume: "@ + decimal(app.volume as nat) + "%"@,
{
    let mut out = "Volume: ".to_owned();
    push_decimal(&mut out, app.volume as u64);
    out.append("%");
    out
}

/// The status message shown now: the last one given.
pub fn get_info_str(app: &App) -> (r: String)
    ensures
        r@ == if app@.info.len() == 0 {
            Seq::empty()
        } else {
            app@.info.last()
        },
{
    let n = app.info.len();
    if n == 0 {
        String::new()
    } else {
        app.info[n - 1].clone()
    }
}

/// The names of the queued tracks, one per line, next first.
pub fn get_queue_str(app: &App) -> (r: String)
    ensures
        r@ == join_lines(app@.track_queue.map_values(|p: Seq<char>| name_text(p))),
{
    let n = app.track_queue.len();
    let ghost names = app@.track_queue.map_values(|p: Seq<char>| name_text(p));
    let mut out = String::new();
    let mut i: usize = 0;
    while i < n
        invariant
            n == app.track_queue@.len(),
            names == app@.track_queue.map_values(|p: Seq<char>| name_text(p)),
            names.len() == n,
            i <= n,
            out@ == join_lines(names.take(i as int)),
        decreases n - i,
    {
        let name = track_name(app.track_queue[i].as_str());
        assert(name@ == names[i as int]);
        if i > 0 {
            proof {
                reveal_strlit("\n");
            }
            out.append("\n");
        }
        out.append(name.as_str());
        assert(names.take(i + 1).drop_last() == names.take(i as int));
        assert(names.take(i + 1).last() == names[i as int]);
        i = i + 1;
    }
    assert(names.take(n as int) == names);
    out
}

} // verus!
