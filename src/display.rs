use vstd::prelude::*;
use vstd::string::StrSliceExecFns;
use crate::host::{find_char, find_from, parse_i32, parse_i32_spec};

verus! {

/// Failures logged at most this many times over the process.
pub const MAX_LOGGED_FAILURES: u32 = 1_000_000;
/// One failure in this many is written to the log.
pub const LOG_EVERY: u32 = 10_000;

/// Counts a display that starts being captured; returns the new count.
pub fn increment_active_display_count(count: &mut usize) -> (r: usize)
    requires
        *old(count) < usize::MAX,
    ensures
        *final(count) == *old(count) + 1,
        r == *final(count),
{
    *count = *count + 1;
    *count
}

/// Counts a display that stops being captured, never below zero; returns the new count.
pub fn decrement_active_display_count(count: &mut usize) -> (r: usize)
    ensures
        *final(count) == if *old(count) > 0 {
            *old(count) - 1
        } else {
            0
        },
        r == *final(count),
{
    if *count > 0 {
        *count = *count - 1;
    }
    *count
}

/// Counts one capture failure; returns whether this one is to be logged.
pub fn try_log(count: &mut u32) -> (r: bool)
    ensures
        *old(count) >= MAX_LOGGED_FAILURES ==> !r && *final(count) == *old(count),
        *old(count) < MAX_LOGGED_FAILURES ==> r == (*old(count) % LOG_EVERY == 0) && *final(count)
            == *old(count) + 1,
{
    if *count >= MAX_LOGGED_FAILURES {
        return false;
    }
    let log = *count % LOG_EVERY == 0;
    *count = *count + 1;
    log
}

/// Placement of one display on the desktop.
pub struct DisplayRect {
    pub x: i32,
    pub y: i32,
    pub width: usize,
    pub height: usize,
}

/// Right and bottom edges of the first `n` displays, at least 0.
pub open spec fn max_extent(rects: Seq<DisplayRect>, n: int) -> (int, int)
    decreases n,
{
    if n <= 0 {
        (0, 0)
    } else {
        let (mx, my) = max_extent(rects, n - 1);
        let d = rects[n - 1];
        let ex = d.x + d.width;
        let ey = d.y + d.height;
        (if ex > mx {
            ex
        } else {
            mx
        }, if ey > my {
            ey
        } else {
            my
        })
    }
}

/// Every display's edges fit a 32-bit coordinate.
pub open spec fn edges_fit(rects: Seq<DisplayRect>) -> bool {
    forall|i: int|
        0 <= i < rects.len() ==> #[trigger] rects[i].x + rects[i].width <= i32::MAX && rects[i].y
            + rects[i].height <= i32::MAX
}

/// Size of the desktop that holds all `displays`, measured from the origin.
pub fn calculate_max_resolution_from_displays(displays: &Vec<DisplayRect>) -> (r: (i32, i32))
    requires
        edges_fit(displays@),
    ensures
        r.0 == max_extent(displays@, displays@.len() as int).0,
        r.1 == max_extent(displays@, displays@.len() as int).1,
{
    let mut max_x: i32 = 0;
    let mut max_y: i32 = 0;
    let mut i: usize = 0;
    while i < displays.len()
        invariant
            i <= displays.len(),
            edges_fit(displays@),
            max_x == max_extent(displays@, i as int).0,
            max_y == max_extent(displays@, i as int).1,
        decreases displays.len() - i,
    {
        let d = &displays[i];
        let ex = (d.x as i64 + d.width as i64) as i32;
        let ey = (d.y as i64 + d.height as i64) as i32;
        if ex > max_x {
            max_x = ex;
        }
        if ey > max_y {
            max_y = ey;
        }
        i = i + 1;
    }
    (max_x, max_y)
}


/// `s` without its trailing commas.
pub open spec fn trim_commas(s: Seq<char>) -> Seq<char>
    decreases s.len(),
{
    if s.len() > 0 && s.last() == ',' {
        trim_commas(s.drop_last())
    } else {
        s
    }
}

/// First space-separated field of `s`.
pub open spec fn field0(s: Seq<char>) -> Seq<char> {
    s.subrange(0, find_from(s, ' ', 0))
}

/// Third space-separated field of `s`, or `"0"` when there is none.
pub open spec fn field2(s: Seq<char>) -> Seq<char> {
    let a = find_from(s, ' ', 0);
    let b = find_from(s, ' ', a + 1);
    if a < s.len() && b < s.len() {
        s.subrange(b + 1, find_from(s, ' ', b + 1))
    } else {
        seq!['0']
    }
}

/// Width and height read from a `W x H,` line of the display server, when both parse.
pub open spec fn resolution_line_spec(s: Seq<char>) -> Option<(int, int)> {
    match (parse_i32_spec(field0(s)), parse_i32_spec(trim_commas(field2(s)))) {
        (Some(w), Some(h)) => Some((w, h)),
        _ => None,
    }
}

fn trim_trailing_commas(s: &str) -> (r: &str)
    ensures
        r@ == trim_commas(s@),
{
    let mut end = s.unicode_len();
    assert(s@.subrange(0, end as int) =~= s@);
    while end > 0 && s.get_char(end - 1) == ','
        invariant
            end <= s@.len(),
            trim_commas(s@.subrange(0, end as int)) == trim_commas(s@),
        decreases end,
    {
        assert(s@.subrange(0, end as int).drop_last() =~= s@.subrange(0, end - 1));
        end = end - 1;
    }
    assert(trim_commas(s@.subrange(0, end as int)) == s@.subrange(0, end as int));
    s.substring_char(0, end)
}

/// Reads a `W x H,` line: the first field is the width, the third the height.
pub fn parse_resolution_line(s: &str) -> (r: Option<(i32, i32)>)
    ensures
        match resolution_line_spec(s@) {
            Some((w, h)) => r == Some((w as i32, h as i32)),
            None => r is None,
        },
{
    proof {
        reveal_strlit("0");
    }
    let n = s.unicode_len();
    let a = find_char(s, ' ', 0);
    let w = parse_i32(s.substring_char(0, a));
    let third: &str = if a < n {
        let b = find_char(s, ' ', a + 1);
        if b < n {
            let c = find_char(s, ' ', b + 1);
            s.substring_char(b + 1, c)
        } else {
            "0"
        }
    } else {
        "0"
    };
    assert(third@ =~= field2(s@));
    let h = parse_i32(trim_trailing_commas(third));
    match (w, h) {
        (Some(w), Some(h)) => Some((w, h)),
        _ => None,
    }
}

/// Size of the desktop: what the display server reports, when it reports a
/// readable size, else the extent of the captured displays.
pub fn get_max_desktop_resolution(reported: Option<&str>, displays: &Vec<DisplayRect>) -> (r: (
    i32,
    i32,
))
    requires
        edges_fit(displays@),
    ensures
        ({
            let fallback = max_extent(displays@, displays@.len() as int);
            match reported {
                Some(s) if s@.len() > 0 => match resolution_line_spec(s@) {
                    Some((w, h)) => r.0 == w && r.1 == h,
                    None => r.0 == fallback.0 && r.1 == fallback.1,
                },
                _ => r.0 == fallback.0 && r.1 == fallback.1,
            }
        }),
{
    match reported {
        Some(s) => {
            if s.unicode_len() > 0 {
                if let Some(wh) = parse_resolution_line(s) {
                    return wh;
                }
            }
        },
        None => {},
    }
    calculate_max_resolution_from_displays(displays)
}


/// Whether `s` begins with `p`.
pub open spec fn starts_with_spec(s: Seq<char>, p: Seq<char>) -> bool {
    p.len() <= s.len() && s.subrange(0, p.len() as int) == p
}

/// Whether `p` occurs in `s`.
pub open spec fn contains_spec(s: Seq<char>, p: Seq<char>) -> bool {
    exists|i: int| 0 <= i && i + p.len() <= s.len() && #[trigger] s.subrange(i, i + p.len()) == p
}

/// Lexicographic order of character sequences, as `str` orders them.
pub open spec fn lex_less(a: Seq<char>, b: Seq<char>) -> bool
    decreases a.len(),
{
    if b.len() == 0 {
        false
    } else if a.len() == 0 {
        true
    } else if a[0] != b[0] {
        a[0] < b[0]
    } else {
        lex_less(a.drop_first(), b.drop_first())
    }
}

fn text_eq(a: &str, b: &str) -> (r: bool)
    ensures
        r == (a@ == b@),
{
    a.to_owned() == b.to_owned()
}

fn starts_with(s: &str, p: &str) -> (r: bool)
    ensures
        r == starts_with_spec(s@, p@),
{
    let m = p.unicode_len();
    if m > s.unicode_len() {
        return false;
    }
    text_eq(s.substring_char(0, m), p)
}

fn contains(s: &str, p: &str) -> (r: bool)
    ensures
        r == contains_spec(s@, p@),
{
    let n = s.unicode_len();
    let m = p.unicode_len();
    if m > n {
        return false;
    }
    if m == 0 {
        assert(s@.subrange(0int, 0int + p@.len()) =~= p@);
        return true;
    }
    let mut i: usize = 0;
    while i <= n - m
        invariant
            0 < m <= n,
            i <= n - m + 1,
            n == s@.len(),
            m == p@.len(),
            m <= n,
            forall|j: int| 0 <= j < i ==> #[trigger] s@.subrange(j, j + p@.len()) != p@,
        decreases n - m + 1 - i,
    {
        if text_eq(s.substring_char(i, i + m), p) {
            assert(s@.subrange(i as int, i + p@.len()) == p@);
            return true;
        }
        i = i + 1;
    }
    assert forall|j: int| 0 <= j && j + p@.len() <= s@.len() implies #[trigger] s@.subrange(
        j,
        j + p@.len(),
    ) != p@ by {
        assert(j < i);
    }
    false
}

fn less_than(a: &str, b: &str) -> (r: bool)
    ensures
        r == lex_less(a@, b@),
{
    let n = a.unicode_len();
    let m = b.unicode_len();
    let mut i: usize = 0;
    assert(a@.subrange(0, n as int) =~= a@);
    assert(b@.subrange(0, m as int) =~= b@);
    while i < n && i < m
        invariant
            i <= n,
            i <= m,
            n == a@.len(),
            m == b@.len(),
            lex_less(a@.subrange(i as int, n as int), b@.subrange(i as int, m as int)) == lex_less(
                a@,
                b@,
            ),
        decreases n - i,
    {
        let x = a.get_char(i);
        let y = b.get_char(i);
        if x != y {
            assert(a@.subrange(i as int, n as int)[0] == x);
            assert(b@.subrange(i as int, m as int)[0] == y);
            return x < y;
        }
        assert(a@.subrange(i as int, n as int).drop_first() =~= a@.subrange(i + 1, n as int));
        assert(b@.subrange(i as int, m as int).drop_first() =~= b@.subrange(i + 1, m as int));
        i = i + 1;
    }
    i < m
}

/// What a capture failure means for the user.
#[derive(PartialEq, Eq, Structural)]
pub enum ScrapError {
    /// The desktop portal stopped answering: nothing can recover, the process ends.
    Fatal,
    /// This Ubuntu release is too old for screen capture on Wayland.
    UbuntuHigherRequired,
    /// The failure as it was reported.
    Failed,
    /// Another desktop version, or an X11 session, is needed.
    OtherVersionOrX11Required,
    /// An X11 session is needed.
    X11Required,
}

/// Classifies the capture failure `err`. `is_ubuntu` says whether the
/// distribution's name, upper-cased, reads UBUNTU; `version` is its version id.
/// Also counts the failure with `try_log` where it is not fatal and not the old-Ubuntu
/// case; the flag returned says whether to log it.
pub fn map_err_scrap(err: &str, is_ubuntu: bool, version: &str, log_count: &mut u32) -> (r: (
    ScrapError,
    bool,
))
    ensures
        starts_with_spec(err@, "Did not receive a reply"@) ==> r.0 == ScrapError::Fatal && !r.1
            && *final(log_count) == *old(log_count),
        !starts_with_spec(err@, "Did not receive a reply"@) ==> if is_ubuntu && lex_less(
            version@,
            "21"@,
        ) {
            r.0 == ScrapError::UbuntuHigherRequired && !r.1 && *final(log_count) == *old(log_count)
        } else {
            &&& r.0 == if is_ubuntu {
                ScrapError::Failed
            } else if contains_spec(err@, "org.freedesktop.portal"@) || contains_spec(
                err@,
                "pipewire"@,
            ) || contains_spec(err@, "dbus"@) {
                ScrapError::OtherVersionOrX11Required
            } else {
                ScrapError::X11Required
            }
            &&& *old(log_count) >= MAX_LOGGED_FAILURES ==> !r.1 && *final(log_count) == *old(
                log_count,
            )
            &&& *old(log_count) < MAX_LOGGED_FAILURES ==> r.1 == (*old(log_count) % LOG_EVERY == 0)
                && *final(log_count) == *old(log_count) + 1
        },
{
    if starts_with(err, "Did not receive a reply") {
        return (ScrapError::Fatal, false);
    }
    if is_ubuntu {
        if less_than(version, "21") {
            (ScrapError::UbuntuHigherRequired, false)
        } else {
            let log = try_log(log_count);
            (ScrapError::Failed, log)
        }
    } else {
        let log = try_log(log_count);
        if contains(err, "org.freedesktop.portal") || contains(err, "pipewire") || contains(
            err,
            "dbus",
        ) {
            (ScrapError::OtherVersionOrX11Required, log)
        } else {
            (ScrapError::X11Required, log)
        }
    }
}


/// A prompt shown to the peer.
pub struct MessageBox {
    pub msgtype: String,
    pub title: String,
    pub text: String,
    pub link: String,
}

/// The prompt to send while no screen has been chosen for sharing on Wayland;
/// `None` under X11 or once capture sessions exist.
pub fn is_inited(is_x11: bool, sessions: &DisplaySessions) -> (r: Option<MessageBox>)
    ensures
        r is Some <==> (!is_x11 && sessions.sessions@.len() == 0),
        r matches Some(m) ==> m.msgtype@ == "nook-nocancel-hasclose"@ && m.title@ == "Wayland"@
            && m.text@ == "Please Select the screen to be shared(Operate on the peer side)."@
            && m.link@.len() == 0,
{
    if is_x11 || sessions.sessions.len() > 0 {
        None
    } else {
        Some(
            MessageBox {
                msgtype: "nook-nocancel-hasclose".to_owned(),
                title: "Wayland".to_owned(),
                text: "Please Select the screen to be shared(Operate on the peer side).".to_owned(),
                link: String::new(),
            },
        )
    }
}

/// Capture session of one display: the layout of all displays when it was
/// opened, and which of them it captures.
pub struct CaptureSession {
    pub rects: Vec<DisplayRect>,
    pub primary: usize,
    pub current: usize,
}

/// What a caller needs to capture one display.
pub struct CapturerInfo {
    pub origin: (i32, i32),
    pub width: usize,
    pub height: usize,
    pub ndisplay: usize,
    pub current: usize,
}

#[derive(PartialEq, Eq, Structural)]
pub enum DisplayError {
    /// Capture sessions exist only on Wayland.
    NotWayland,
    /// No session has been opened.
    NoSession,
    /// No session captures that display.
    NoSuchDisplay,
}

/// Capture sessions indexed by display: session `i` captures display `i`.
pub struct DisplaySessions {
    pub sessions: Vec<CaptureSession>,
}

impl DisplaySessions {
    pub open spec fn wf(&self) -> bool {
        forall|i: int|
            0 <= i < self.sessions@.len() ==> {
                let s = #[trigger] self.sessions@[i];
                &&& s.current == i
                &&& s.rects@.len() == self.sessions@.len()
            }
    }

    pub fn new() -> (r: Self)
        ensures
            r.wf(),
            r.sessions@.len() == 0,
    {
        DisplaySessions { sessions: Vec::new() }
    }

    /// Opens one session per display of `rects`, all agreeing on `primary`.
    pub fn open_all(&mut self, rects: &Vec<DisplayRect>, primary: usize)
        ensures
            final(self).wf(),
            final(self).sessions@.len() == rects@.len(),
            forall|i: int|
                0 <= i < rects@.len() ==> (#[trigger] final(self).sessions@[i]).primary == primary
                    && final(self).sessions@[i].rects@ == rects@,
    {
        let mut sessions: Vec<CaptureSession> = Vec::new();
        let mut i: usize = 0;
        while i < rects.len()
            invariant
                i <= rects.len(),
                sessions@.len() == i,
                forall|k: int|
                    0 <= k < i ==> (#[trigger] sessions@[k]).current == k && sessions@[k].primary
                        == primary && sessions@[k].rects@ == rects@,
            decreases rects.len() - i,
        {
            sessions.push(CaptureSession { rects: copy_rects(rects), primary, current: i });
            i = i + 1;
        }
        self.sessions = sessions;
    }

    /// The primary display, as every session records it.
    pub fn get_primary(&self) -> (r: Result<usize, DisplayError>)
        ensures
            self.sessions@.len() == 0 ==> r == Err::<usize, DisplayError>(DisplayError::NoSession),
            self.sessions@.len() > 0 ==> r == Ok::<usize, DisplayError>(self.sessions@[0].primary),
    {
        if self.sessions.len() == 0 {
            Err(DisplayError::NoSession)
        } else {
            Ok(self.sessions[0].primary)
        }
    }

    /// Placement and count for capturing display `idx`.
    pub fn get_capturer_for_display(&self, is_x11: bool, idx: usize) -> (r: Result<
        CapturerInfo,
        DisplayError,
    >)
        requires
            self.wf(),
        ensures
            is_x11 ==> r matches Err(DisplayError::NotWayland),
            !is_x11 && idx >= self.sessions@.len() ==> r matches Err(DisplayError::NoSuchDisplay),
            !is_x11 && idx < self.sessions@.len() ==> match r {
                Ok(c) => {
                    let s = self.sessions@[idx as int];
                    let d = s.rects@[idx as int];
                    &&& c.origin == (d.x, d.y)
                    &&& c.width == d.width
                    &&& c.height == d.height
                    &&& c.ndisplay == self.sessions@.len()
                    &&& c.current == idx
                },
                Err(_) => false,
            },
    {
        if is_x11 {
            return Err(DisplayError::NotWayland);
        }
        if idx >= self.sessions.len() {
            return Err(DisplayError::NoSuchDisplay);
        }
        let s = &self.sessions[idx];
        let d = &s.rects[s.current];
        Ok(
            CapturerInfo {
                origin: (d.x, d.y),
                width: d.width,
                height: d.height,
                ndisplay: s.rects.len(),
                current: s.current,
            },
        )
    }

    /// Closes every session; does nothing under X11.
    pub fn clear(&mut self, is_x11: bool)
        requires
            old(self).wf(),
        ensures
            final(self).wf(),
            is_x11 ==> final(self).sessions@ == old(self).sessions@,
            !is_x11 ==> final(self).sessions@.len() == 0,
    {
        if !is_x11 {
            self.sessions = Vec::new();
        }
    }
}

fn copy_rects(rects: &Vec<DisplayRect>) -> (r: Vec<DisplayRect>)
    ensures
        r@ == rects@,
{
    let mut out: Vec<DisplayRect> = Vec::new();
    let mut i: usize = 0;
    while i < rects.len()
        invariant
            i <= rects.len(),
            out@ == rects@.subrange(0, i as int),
        decreases rects.len() - i,
    {
        let d = &rects[i];
        out.push(DisplayRect { x: d.x, y: d.y, width: d.width, height: d.height });
        assert(out@ =~= rects@.subrange(0, i + 1));
        i = i + 1;
    }
    assert(out@ =~= rects@);
    out
}

} // verus!
