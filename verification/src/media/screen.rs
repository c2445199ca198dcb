//! Screen capture as far as it is logic: cutting a stream of JPEG images
//! into frames, and reading the choice that the user made of what to share.

use vstd::prelude::*;
use vstd::slice::{slice_subrange, slice_to_vec};
use crate::text::str_equal;

verus! {

/// A screen or window that can be shared.
#[derive(Debug, PartialEq, Eq)]
pub struct ScreenInfo {
    pub name: String,
    pub id: String,
}

pub ghost struct ScreenInfoView {
    pub name: Seq<char>,
    pub id: Seq<char>,
}

impl View for ScreenInfo {
    type V = ScreenInfoView;

    open spec fn view(&self) -> ScreenInfoView {
        ScreenInfoView { name: self.name@, id: self.id@ }
    }
}

impl Clone for ScreenInfo {
    fn clone(&self) -> (r: Self)
        ensures
            r@ == self@,
    {
        ScreenInfo { name: self.name.clone(), id: self.id.clone() }
    }
}

/// The width that screen frames are scaled to.
pub const SCREEN_WIDTH: u32 = 1280;

/// The height that screen frames are scaled to.
pub const SCREEN_HEIGHT: u32 = 720;

/// The frames per second of a screen share.
pub const SCREEN_FPS: u32 = 10;

/// The second byte of the marker that starts a JPEG image.
pub const JPEG_START: u8 = 0xD8;

/// The second byte of the marker that ends a JPEG image.
pub const JPEG_END: u8 = 0xD9;

/// Whether the two bytes at `i` are the marker `0xFF`, `second`.
pub open spec fn marker_at(buf: Seq<u8>, i: int, second: u8) -> bool {
    0 <= i && i + 1 < buf.len() && buf[i] == 0xFF && buf[i + 1] == second
}

/// Whether `at` is the first place from `from` on where the marker stands.
pub open spec fn first_marker(buf: Seq<u8>, from: int, second: u8, at: int) -> bool {
    &&& from <= at
    &&& marker_at(buf, at, second)
    &&& forall|i: int| from <= i < at ==> !marker_at(buf, i, second)
}

/// Whether no marker stands from `from` on.
pub open spec fn no_marker(buf: Seq<u8>, from: int, second: u8) -> bool {
    forall|i: int| from <= i ==> !marker_at(buf, i, second)
}

/// Finds the first place from `from` on where the marker stands.
pub fn find_marker(buf: &[u8], from: usize, second: u8) -> (at: Option<usize>)
    ensures
        match at {
            Some(i) => first_marker(buf@, from as int, second, i as int),
            None => no_marker(buf@, from as int, second),
        },
{
    if buf.len() < 2 || from > buf.len() - 2 {
        return None;
    }
    let mut i: usize = from;
    while i + 1 < buf.len()
        invariant
            from <= i,
            i + 1 <= buf.len(),
            forall|k: int| from <= k < i ==> !marker_at(buf@, k, second),
        decreases buf.len() - i,
    {
        if buf[i] == 0xFF && buf[i + 1] == second {
            return Some(i);
        }
        i += 1;
    }
    None
}

/// Takes the first complete JPEG image out of the buffer: from the first
/// start marker to the end of the first end marker that follows it. The
/// image leaves the buffer together with what stood before it. Where no
/// image is complete, the buffer stays as it is.
pub fn extract_jpeg_frame(buf: &mut Vec<u8>) -> (frame: Option<Vec<u8>>)
    ensures
        match frame {
            Some(image) => exists|start: int, end: int|
                {
                    &&& first_marker(old(buf)@, 0, JPEG_START, start)
                    &&& #[trigger] first_marker(old(buf)@, start + 2, JPEG_END, end)
                    &&& image@ == old(buf)@.subrange(start, end + 2)
                    &&& final(buf)@ == old(buf)@.skip(end + 2)
                },
            None => {
                &&& final(buf)@ == old(buf)@
                &&& no_marker(old(buf)@, 0, JPEG_START) || exists|start: int|
                    #[trigger] first_marker(old(buf)@, 0, JPEG_START, start) && no_marker(
                        old(buf)@,
                        start + 2,
                        JPEG_END,
                    )
            },
        },
{
    let start = match find_marker(buf.as_slice(), 0, JPEG_START) {
        Some(i) => i,
        None => {
            return None;
        },
    };
    let len = buf.len();
    assert(marker_at(buf@, start as int, JPEG_START));
    assert(start + 1 < len);
    let end = match find_marker(buf.as_slice(), start + 2, JPEG_END) {
        Some(i) => i,
        None => {
            assert(first_marker(buf@, 0, JPEG_START, start as int));
            return None;
        },
    };
    assert(first_marker(buf@, start as int + 2, JPEG_END, end as int));
    assert(marker_at(buf@, end as int, JPEG_END));
    assert(end + 1 < len);
    let image = slice_to_vec(slice_subrange(buf.as_slice(), start, end + 2));
    let rest = slice_to_vec(slice_subrange(buf.as_slice(), end + 2, buf.len()));
    assert(rest@ =~= buf@.skip(end + 2));
    *buf = rest;
    Some(image)
}

/// What the user chose to share.
#[derive(Debug, PartialEq, Eq)]
pub enum CaptureTarget {
    /// The whole screen.
    FullScreen,
    /// One window, by its id, with its title.
    Window { id: String, title: String },
}

pub ghost enum CaptureTargetView {
    FullScreen,
    Window { id: Seq<char>, title: Seq<char> },
}

impl View for CaptureTarget {
    type V = CaptureTargetView;

    open spec fn view(&self) -> CaptureTargetView {
        match *self {
            CaptureTarget::FullScreen => CaptureTargetView::FullScreen,
            CaptureTarget::Window { id, title } => CaptureTargetView::Window {
                id: id@,
                title: title@,
            },
        }
    }
}

/// The id under which the whole screen stands in the list that the user
/// chooses from.
pub const FULLSCREEN_CHOICE: &'static str = "__fullscreen__";

/// The title of the first window with this id, or the empty text.
pub open spec fn title_of(windows: Seq<ScreenInfoView>, id: Seq<char>) -> Seq<char>
    decreases windows.len(),
{
    if windows.len() == 0 {
        Seq::empty()
    } else if windows[0].id == id {
        windows[0].name
    } else {
        title_of(windows.drop_first(), id)
    }
}

/// What a choice from the list means: nothing chosen is a cancellation, the
/// whole screen stands under its own id, and anything else is the id of a
/// window.
pub open spec fn chosen_target(selection: Seq<char>, windows: Seq<ScreenInfoView>) -> Option<
    CaptureTargetView,
> {
    if selection.len() == 0 {
        None
    } else if selection == FULLSCREEN_CHOICE@ {
        Some(CaptureTargetView::FullScreen)
    } else {
        Some(CaptureTargetView::Window { id: selection, title: title_of(windows, selection) })
    }
}

/// Reads the choice that the user made from the list of the whole screen and
/// the windows.
pub fn choose_target(selection: &str, windows: &Vec<ScreenInfo>) -> (target: Option<CaptureTarget>)
    ensures
        crate::text::opt_view(target) == chosen_target(selection@, crate::text::views(windows@)),
{
    if selection.unicode_len() == 0 {
        return None;
    }
    if str_equal(selection, FULLSCREEN_CHOICE) {
        return Some(CaptureTarget::FullScreen);
    }
    let ghost all = crate::text::views(windows@);
    let mut i: usize = 0;
    assert(all.skip(0) =~= all);
    while i < windows.len()
        invariant
            i <= windows.len(),
            selection@.len() != 0,
            selection@ != FULLSCREEN_CHOICE@,
            all == crate::text::views(windows@),
            title_of(all, selection@) == title_of(all.skip(i as int), selection@),
        decreases windows.len() - i,
    {
        assert(all.skip(i as int)[0] == windows@[i as int]@);
        assert(all.skip(i as int).drop_first() =~= all.skip(i + 1));
        if str_equal(windows[i].id.as_str(), selection) {
            assert(title_of(all.skip(i as int), selection@) == windows@[i as int]@.name);
            return Some(
                CaptureTarget::Window { id: selection.to_owned(), title: windows[i].name.clone() },
            );
        }
        i += 1;
    }
    Some(CaptureTarget::Window { id: selection.to_owned(), title: String::new() })
}

} // verus!
