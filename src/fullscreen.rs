use vstd::prelude::*;

verus! {

/// Window style bits of a title bar.
pub const WS_CAPTION: u64 = 0x00C0_0000;

/// Share of the monitor's width and height, in percent, that a window must
/// cover to count as fullscreen at all.
pub const COVER_PERCENT: i64 = 90;

/// Size of the monitor, in physical pixels.
#[derive(Debug, Clone, Copy, PartialEq, Eq)]
pub struct MonitorSize {
    pub width: u32,
    pub height: u32,
}

/// The foreground window's rectangle and its style bits (0 when the style
/// could not be read).
#[derive(Debug, Clone, Copy, PartialEq, Eq)]
pub struct ForegroundWindow {
    pub left: i32,
    pub top: i32,
    pub right: i32,
    pub bottom: i32,
    pub style: u64,
}

/// `w` covers at least `COVER_PERCENT` percent (rounded down) of `total`.
pub open spec fn covers(w: int, total: u32) -> bool {
    w >= total * COVER_PERCENT / 100
}

/// Content fullscreen (a game or a video player): the window covers the
/// monitor and has no title bar. A decorated window merely sized to the screen
/// (window fullscreen) does not count, popup or not, nor does anything whose
/// monitor, rectangle or style is unknown.
pub open spec fn content_fullscreen(monitor: Option<MonitorSize>, window: Option<ForegroundWindow>) -> bool {
    match (monitor, window) {
        (Some(m), Some(w)) => covers(w.right - w.left, m.width) && covers(w.bottom - w.top, m.height)
            && w.style != 0 && (w.style & WS_CAPTION) == 0,
        _ => false,
    }
}

/// Whether the foreground window shows content fullscreen.
pub fn is_foreground_fullscreen(monitor: Option<MonitorSize>, window: Option<ForegroundWindow>) -> (r:
    bool)
    ensures
        r == content_fullscreen(monitor, window),
{
    let (m, w) = match (monitor, window) {
        (Some(m), Some(w)) => (m, w),
        _ => {
            return false;
        },
    };
    let width = w.right as i64 - w.left as i64;
    let height = w.bottom as i64 - w.top as i64;
    let need_w = m.width as i64 * COVER_PERCENT / 100;
    let need_h = m.height as i64 * COVER_PERCENT / 100;
    if width < need_w || height < need_h {
        return false;
    }
    if w.style == 0 {
        return false;
    }
    let has_caption = (w.style & WS_CAPTION) != 0;
    !has_caption
}

/// For a window no larger than the monitor: a borderless window covering at
/// least 95% of a (non-empty) monitor's area is content fullscreen; a window
/// with a title bar never is; and on a monitor of at least 10 pixels each
/// way, a window covering at most half of its area is not.
pub proof fn lemma_fullscreen_coverage(m: MonitorSize, w: ForegroundWindow)
    requires
        0 <= w.right - w.left <= m.width,
        0 <= w.bottom - w.top <= m.height,
    ensures
        100 * (w.right - w.left) * (w.bottom - w.top) >= 95 * m.width * m.height && m.width > 0
            && m.height > 0 && w.style != 0 && (w.style & WS_CAPTION) == 0 ==> content_fullscreen(
            Some(m),
            Some(w),
        ),
        (w.style & WS_CAPTION) != 0 ==> !content_fullscreen(
            Some(m),
            Some(w),
        ),
        100 * (w.right - w.left) * (w.bottom - w.top) <= 50 * m.width * m.height && m.width >= 10
            && m.height >= 10 ==> !content_fullscreen(Some(m), Some(w)),
{
    let x: int = w.right - w.left;
    let y: int = w.bottom - w.top;
    let big_w: int = m.width as int;
    let big_h: int = m.height as int;
    if 100 * x * y >= 95 * big_w * big_h && big_w > 0 && big_h > 0 {
        assert(100 * x * big_h >= 100 * x * y) by (nonlinear_arith)
            requires
                0 <= y <= big_h,
                0 <= x,
        ;
        assert(100 * x >= 95 * big_w) by (nonlinear_arith)
            requires
                100 * x * big_h >= 95 * big_w * big_h,
                big_h > 0,
        ;
        assert(100 * y * big_w >= 100 * x * y) by (nonlinear_arith)
            requires
                0 <= x <= big_w,
                0 <= y,
        ;
        assert(100 * y >= 95 * big_h) by (nonlinear_arith)
            requires
                100 * y * big_w >= 95 * big_w * big_h,
                big_w > 0,
        ;
        assert(x >= big_w * 90 / 100);
        assert(y >= big_h * 90 / 100);
    }
    if 100 * x * y <= 50 * big_w * big_h && big_w >= 10 && big_h >= 10 {
        if covers(x, m.width) && covers(y, m.height) {
            assert(100 * x >= 80 * big_w);
            assert(100 * y >= 80 * big_h);
            assert(10000 * x * y >= 6400 * big_w * big_h) by (nonlinear_arith)
                requires
                    100 * x >= 80 * big_w,
                    100 * y >= 80 * big_h,
                    big_w >= 0,
                    big_h >= 0,
            ;
            assert(false) by (nonlinear_arith)
                requires
                    10000 * x * y >= 6400 * big_w * big_h,
                    100 * x * y <= 50 * big_w * big_h,
                    big_w >= 10,
                    big_h >= 10,
            ;
        }
    }
}

} // verus!
