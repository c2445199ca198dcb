//! What the screen capture reads and writes as text: the window lists of
//! the desktop's tools, a window's place and size, and the arguments that
//! the capturing program is started with.

use vstd::prelude::*;
use vstd::string::*;
use crate::media::screen::{
    CaptureTarget, CaptureTargetView, ScreenInfo, ScreenInfoView, SCREEN_FPS, SCREEN_HEIGHT,
    SCREEN_WIDTH,
};
use crate::rooms::{hex_char, hex_digit};
use crate::scan::{
    char_lists, decimal, decimal_of, find_char, find_white, first_white, head, leading_white,
    lines, lines_of, number_of, parse_number, parse_signed, parse_unsigned, signed_decimal,
    signed_decimal_of, signed_of, tail, to_chars, to_text, trim, trim_start_len, trimmed,
    unsigned_of,
};
use crate::text::{join_texts, opt_view, push_char, segment_len, texts, views};

verus! {

/// The window that an id and a title stand for: both without the white
/// space around them, and none where nothing is left of the title.
pub open spec fn window_of(id: Seq<char>, title: Seq<char>) -> Option<ScreenInfoView> {
    if trimmed(title).len() == 0 {
        None
    } else {
        Some(ScreenInfoView { name: trimmed(title), id: trimmed(id) })
    }
}

/// Makes a window of an id and a title.
pub fn window_entry(id: &[char], title: &[char]) -> (w: Option<ScreenInfo>)
    ensures
        opt_view(w) == window_of(id@, title@),
{
    let name = trim(title);
    if name.len() == 0 {
        None
    } else {
        let id = trim(id);
        Some(ScreenInfo { name: to_text(name.as_slice()), id: to_text(id.as_slice()) })
    }
}

/// The window in a line of a list in columns. The line is cut at its first
/// three white spaces: the first piece is the id, the second the desktop.
/// Of what follows the third, the first word is the host and the rest the
/// title. A line with fewer pieces, one of the desktop `-1` (a window on no
/// desktop), or one without a title holds none.
pub open spec fn listed_window(line: Seq<char>) -> Option<ScreenInfoView> {
    let a = first_white(line) as int;
    let second = line.skip(a + 1);
    let b = first_white(second) as int;
    let third = second.skip(b + 1);
    let c = first_white(third) as int;
    let last = trimmed(third.skip(c + 1));
    let d = first_white(last) as int;
    if a >= line.len() || b >= second.len() || c >= third.len() {
        None
    } else if trimmed(second.take(b)) == seq!['-', '1'] {
        None
    } else if d >= last.len() {
        None
    } else {
        window_of(line.take(a), last.skip(d + 1))
    }
}

/// Reads the window in a line of a list in columns.
pub fn read_listed_window(line: &[char]) -> (w: Option<ScreenInfo>)
    ensures
        opt_view(w) == listed_window(line@),
{
    let a = find_white(line);
    if a >= line.len() {
        return None;
    }
    let second = tail(line, a + 1);
    let b = find_white(second);
    if b >= second.len() {
        return None;
    }
    let third = tail(second, b + 1);
    let c = find_white(third);
    if c >= third.len() {
        return None;
    }
    let desktop = trim(head(second, b));
    if desktop.len() == 2 && desktop[0] == '-' && desktop[1] == '1' {
        assert(desktop@ =~= seq!['-', '1']);
        return None;
    }
    let last = trim(tail(third, c + 1));
    let d = find_white(last.as_slice());
    if d >= last.len() {
        return None;
    }
    window_entry(head(line, a), tail(last.as_slice(), d + 1))
}

/// The window in a line that holds an id, a bar and a title.
pub open spec fn barred_window(line: Seq<char>) -> Option<ScreenInfoView> {
    let l = trimmed(line);
    let i = segment_len(l, '|') as int;
    if i >= l.len() {
        None
    } else {
        window_of(l.take(i), l.skip(i + 1))
    }
}

/// Reads the window in a line that holds an id, a bar and a title.
pub fn read_barred_window(line: &[char]) -> (w: Option<ScreenInfo>)
    ensures
        opt_view(w) == barred_window(line@),
{
    let l = trim(line);
    let i = find_char(l.as_slice(), '|');
    if i >= l.len() {
        return None;
    }
    window_entry(head(l.as_slice(), i), tail(l.as_slice(), i + 1))
}

/// How a window list is laid out.
#[derive(Debug, PartialEq, Eq, Clone, Copy)]
pub enum ListLayout {
    /// Columns that white space parts: id, desktop, host, title.
    Columns,
    /// An id, a bar and a title.
    Bar,
}

/// The window in one line of a list.
pub open spec fn window_in(layout: ListLayout, line: Seq<char>) -> Option<ScreenInfoView> {
    match layout {
        ListLayout::Columns => listed_window(line),
        ListLayout::Bar => barred_window(line),
    }
}

/// The windows in the lines of a list, in the order of the lines.
pub open spec fn windows_in(layout: ListLayout, lines: Seq<Seq<char>>) -> Seq<ScreenInfoView>
    decreases lines.len(),
{
    if lines.len() == 0 {
        Seq::empty()
    } else {
        let before = windows_in(layout, lines.drop_last());
        match window_in(layout, lines.last()) {
            Some(w) => before.push(w),
            None => before,
        }
    }
}

/// Reads a window list: the windows in its lines, in their order.
pub fn read_windows(layout: ListLayout, text: &str) -> (windows: Vec<ScreenInfo>)
    ensures
        views(windows@) == windows_in(layout, lines_of(text@)),
{
    let chars = to_chars(text);
    let all = lines(chars.as_slice());
    let mut windows: Vec<ScreenInfo> = Vec::new();
    let mut i: usize = 0;
    assert(views(windows@) =~= Seq::<ScreenInfoView>::empty());
    assert(char_lists(all@).take(0) =~= Seq::<Seq<char>>::empty());
    while i < all.len()
        invariant
            i <= all.len(),
            views(windows@) == windows_in(layout, char_lists(all@).take(i as int)),
        decreases all.len() - i,
    {
        let ghost before = views(windows@);
        let found = match layout {
            ListLayout::Columns => read_listed_window(all[i].as_slice()),
            ListLayout::Bar => read_barred_window(all[i].as_slice()),
        };
        proof {
            let now = char_lists(all@).take(i + 1);
            assert(now.drop_last() =~= char_lists(all@).take(i as int));
            assert(now.last() == all@[i as int]@);
        }
        match found {
            Some(w) => {
                windows.push(w);
                assert(views(windows@) =~= before.push(w@));
            },
            None => {},
        }
        i += 1;
    }
    assert(char_lists(all@).take(all@.len() as int) =~= char_lists(all@));
    windows
}

/// The lines of a text that are not blank, each without the white space
/// around it.
pub open spec fn filled_lines(lines: Seq<Seq<char>>) -> Seq<Seq<char>>
    decreases lines.len(),
{
    if lines.len() == 0 {
        Seq::empty()
    } else {
        let before = filled_lines(lines.drop_last());
        if trimmed(lines.last()).len() == 0 {
            before
        } else {
            before.push(trimmed(lines.last()))
        }
    }
}

/// Reads a list of window numbers, one to a line.
pub fn read_window_numbers(text: &str) -> (numbers: Vec<String>)
    ensures
        texts(numbers@) == filled_lines(lines_of(text@)),
{
    let chars = to_chars(text);
    let all = lines(chars.as_slice());
    let mut numbers: Vec<String> = Vec::new();
    let mut i: usize = 0;
    assert(texts(numbers@) =~= Seq::<Seq<char>>::empty());
    assert(char_lists(all@).take(0) =~= Seq::<Seq<char>>::empty());
    while i < all.len()
        invariant
            i <= all.len(),
            texts(numbers@) == filled_lines(char_lists(all@).take(i as int)),
        decreases all.len() - i,
    {
        let ghost before = texts(numbers@);
        let line = trim(all[i].as_slice());
        proof {
            let now = char_lists(all@).take(i + 1);
            assert(now.drop_last() =~= char_lists(all@).take(i as int));
            assert(now.last() == all@[i as int]@);
        }
        if line.len() != 0 {
            numbers.push(to_text(line.as_slice()));
            assert(texts(numbers@) =~= before.push(line@));
        }
        i += 1;
    }
    assert(char_lists(all@).take(all@.len() as int) =~= char_lists(all@));
    numbers
}

/// A number in hexadecimal digits of lower case, padded with zeros to at
/// least `width` digits.
pub open spec fn hex_padded(v: nat, width: nat) -> Seq<char>
    decreases v, width,
{
    if v < 16 && width <= 1 {
        seq![hex_char(v as int)]
    } else {
        hex_padded(v / 16, if width > 0 { (width - 1) as nat } else { 0 }).push(
            hex_char((v % 16) as int),
        )
    }
}

/// Writes a number in hexadecimal digits, padded with zeros to at least
/// `width` digits.
pub fn write_hex_padded(v: u64, width: u8) -> (s: String)
    ensures
        s@ == hex_padded(v as nat, width as nat),
    decreases v, width,
{
    if v < 16 && width <= 1 {
        let mut s = String::new();
        push_char(&mut s, hex_digit(v));
        assert(s@ =~= seq![hex_char(v as int)]);
        s
    } else {
        let rest: u8 = if width > 0 {
            width - 1
        } else {
            0
        };
        let mut s = write_hex_padded(v / 16, rest);
        push_char(&mut s, hex_digit(v % 16));
        s
    }
}

/// The id that a window's decimal number is listed under: `0x` and the
/// number in at least eight hexadecimal digits.
pub open spec fn window_id_of(number: u64) -> Seq<char> {
    seq!['0', 'x'] + hex_padded(number as nat, 8)
}

/// The window of a decimal window number and a title; none where the number
/// is no number or nothing is left of the title.
pub open spec fn numbered_window(number: Seq<char>, title: Seq<char>) -> Option<ScreenInfoView> {
    match number_of(number) {
        Some(n) => window_of(window_id_of(n), title),
        None => None,
    }
}

/// Makes a window of its decimal number and its title.
pub fn read_numbered_window(number: &str, title: &str) -> (w: Option<ScreenInfo>)
    ensures
        opt_view(w) == numbered_window(number@, title@),
{
    let digits = to_chars(number);
    match parse_number(digits.as_slice()) {
        Some(n) => {
            let mut id = String::new();
            push_char(&mut id, '0');
            push_char(&mut id, 'x');
            let hex = write_hex_padded(n, 8);
            id.append(hex.as_str());
            assert(id@ =~= window_id_of(n));
            let id_chars = to_chars(id.as_str());
            let title_chars = to_chars(title);
            window_entry(id_chars.as_slice(), title_chars.as_slice())
        },
        None => None,
    }
}

/// What follows `key` in the first line that starts with it, the white space
/// around the line and around the value left out.
pub open spec fn value_after(lines: Seq<Seq<char>>, key: Seq<char>) -> Option<Seq<char>>
    decreases lines.len(),
{
    if lines.len() == 0 {
        None
    } else {
        let l = trimmed(lines[0]);
        if key.is_prefix_of(l) {
            Some(trimmed(l.skip(key.len() as int)))
        } else {
            value_after(lines.drop_first(), key)
        }
    }
}

/// Whether `s` starts with `key`.
pub fn starts_with(s: &[char], key: &[char]) -> (b: bool)
    ensures
        b == key@.is_prefix_of(s@),
{
    if key.len() > s.len() {
        return false;
    }
    let mut i: usize = 0;
    while i < key.len()
        invariant
            i <= key.len() <= s.len(),
            forall|k: int| 0 <= k < i ==> s@[k] == key@[k],
        decreases key.len() - i,
    {
        if s[i] != key[i] {
            assert(s@.subrange(0, key@.len() as int)[i as int] != key@[i as int]);
            return false;
        }
        i += 1;
    }
    assert(s@.subrange(0, key@.len() as int) =~= key@);
    true
}

/// Finds what follows `key` in the first line that starts with it.
pub fn find_value(all: &Vec<Vec<char>>, key: &str) -> (value: Option<Vec<char>>)
    ensures
        opt_view(value) == value_after(char_lists(all@), key@),
{
    let key_chars = to_chars(key);
    let ghost list = char_lists(all@);
    let mut i: usize = 0;
    assert(list.skip(0) =~= list);
    while i < all.len()
        invariant
            i <= all.len(),
            list == char_lists(all@),
            key_chars@ == key@,
            value_after(list, key@) == value_after(list.skip(i as int), key@),
        decreases all.len() - i,
    {
        let l = trim(all[i].as_slice());
        proof {
            assert(list.skip(i as int)[0] == all@[i as int]@);
            assert(list.skip(i as int).drop_first() =~= list.skip(i + 1));
        }
        if starts_with(l.as_slice(), key_chars.as_slice()) {
            return Some(trim(tail(l.as_slice(), key_chars.len())));
        }
        i += 1;
    }
    None
}

/// The names under which a tool reports a window's place and size.
pub struct GeometryKeys<'a> {
    pub x: &'a str,
    pub y: &'a str,
    pub width: &'a str,
    pub height: &'a str,
}

/// A window's place and size.
#[derive(Debug, PartialEq, Eq, Clone, Copy)]
pub struct Geometry {
    pub x: i32,
    pub y: i32,
    pub width: u32,
    pub height: u32,
}

/// The names that `xdotool getwindowgeometry --shell` uses.
pub fn shell_keys() -> (keys: GeometryKeys<'static>)
    ensures
        keys.x@ == "X="@,
        keys.y@ == "Y="@,
        keys.width@ == "WIDTH="@,
        keys.height@ == "HEIGHT="@,
{
    GeometryKeys { x: "X=", y: "Y=", width: "WIDTH=", height: "HEIGHT=" }
}

/// The names that `xwininfo` uses.
pub fn xwininfo_keys() -> (keys: GeometryKeys<'static>)
    ensures
        keys.x@ == "Absolute upper-left X:"@,
        keys.y@ == "Absolute upper-left Y:"@,
        keys.width@ == "Width:"@,
        keys.height@ == "Height:"@,
{
    GeometryKeys {
        x: "Absolute upper-left X:",
        y: "Absolute upper-left Y:",
        width: "Width:",
        height: "Height:",
    }
}

/// The number with a sign under a key, or zero where the key is missing or
/// holds no such number.
pub open spec fn signed_under(lines: Seq<Seq<char>>, key: Seq<char>) -> i32 {
    match value_after(lines, key) {
        Some(v) => match signed_of(v) {
            Some(n) => n,
            None => 0,
        },
        None => 0,
    }
}

/// The number under a key, or zero where the key is missing or holds no
/// number.
pub open spec fn unsigned_under(lines: Seq<Seq<char>>, key: Seq<char>) -> u32 {
    match value_after(lines, key) {
        Some(v) => match unsigned_of(v) {
            Some(n) => n,
            None => 0,
        },
        None => 0,
    }
}

/// The place and size that a tool's report gives: each number under its
/// key, and nothing where the width or the height is zero or missing.
pub open spec fn geometry_of(
    text: Seq<char>,
    x: Seq<char>,
    y: Seq<char>,
    width: Seq<char>,
    height: Seq<char>,
) -> Option<Geometry> {
    let lines = lines_of(text);
    if unsigned_under(lines, width) > 0 && unsigned_under(lines, height) > 0 {
        Some(
            Geometry {
                x: signed_under(lines, x),
                y: signed_under(lines, y),
                width: unsigned_under(lines, width),
                height: unsigned_under(lines, height),
            },
        )
    } else {
        None
    }
}

fn read_signed(all: &Vec<Vec<char>>, key: &str) -> (n: i32)
    ensures
        n == signed_under(char_lists(all@), key@),
{
    match find_value(all, key) {
        Some(v) => match parse_signed(v.as_slice()) {
            Some(n) => n,
            None => 0,
        },
        None => 0,
    }
}

fn read_unsigned(all: &Vec<Vec<char>>, key: &str) -> (n: u32)
    ensures
        n == unsigned_under(char_lists(all@), key@),
{
    match find_value(all, key) {
        Some(v) => match parse_unsigned(v.as_slice()) {
            Some(n) => n,
            None => 0,
        },
        None => 0,
    }
}

/// Reads a window's place and size out of a tool's report.
pub fn read_geometry(text: &str, keys: &GeometryKeys) -> (g: Option<Geometry>)
    ensures
        g == geometry_of(text@, keys.x@, keys.y@, keys.width@, keys.height@),
{
    let chars = to_chars(text);
    let all = lines(chars.as_slice());
    let x = read_signed(&all, keys.x);
    let y = read_signed(&all, keys.y);
    let width = read_unsigned(&all, keys.width);
    let height = read_unsigned(&all, keys.height);
    if width > 0 && height > 0 {
        Some(Geometry { x, y, width, height })
    } else {
        None
    }
}

/// The second of the words of `s` that white space parts, if it has two.
pub open spec fn second_word(s: Seq<char>) -> Option<Seq<char>> {
    let from_first = s.skip(leading_white(s) as int);
    let after_first = from_first.skip(first_white(from_first) as int);
    let from_second = after_first.skip(leading_white(after_first) as int);
    if from_second.len() == 0 {
        None
    } else {
        Some(from_second.take(first_white(from_second) as int))
    }
}

/// `s` without the white space at its start.
pub fn trim_start(s: &[char]) -> (r: &[char])
    ensures
        r@ == s@.skip(leading_white(s@) as int),
{
    let t = trim_start_len(s);
    tail(s, t)
}

/// The first line that starts with `key`, without the white space around
/// it.
pub open spec fn line_with(lines: Seq<Seq<char>>, key: Seq<char>) -> Option<Seq<char>>
    decreases lines.len(),
{
    if lines.len() == 0 {
        None
    } else if key.is_prefix_of(trimmed(lines[0])) {
        Some(trimmed(lines[0]))
    } else {
        line_with(lines.drop_first(), key)
    }
}

/// The key under which `xdpyinfo` reports the size of the screen.
pub const DIMENSIONS_KEY: &'static str = "dimensions:";

/// The two numbers of a text like `1920x1080`.
pub open spec fn size_of(word: Seq<char>) -> Option<(u32, u32)> {
    let i = segment_len(word, 'x') as int;
    if i >= word.len() {
        None
    } else {
        match (unsigned_of(word.take(i)), unsigned_of(word.skip(i + 1))) {
            (Some(w), Some(h)) => Some((w, h)),
            _ => None,
        }
    }
}

/// The size of the screen in a report of `xdpyinfo`: the word that follows
/// the key in the first line that starts with it.
pub open spec fn resolution_of(text: Seq<char>) -> Option<(u32, u32)> {
    match line_with(lines_of(text), DIMENSIONS_KEY@) {
        Some(line) => match second_word(line) {
            Some(word) => size_of(word),
            None => None,
        },
        None => None,
    }
}

/// Reads the two numbers of a text like `1920x1080`.
pub fn read_size(word: &[char]) -> (size: Option<(u32, u32)>)
    ensures
        size == size_of(word@),
{
    let i = find_char(word, 'x');
    if i >= word.len() {
        return None;
    }
    match (parse_unsigned(head(word, i)), parse_unsigned(tail(word, i + 1))) {
        (Some(w), Some(h)) => Some((w, h)),
        _ => None,
    }
}

/// Reads the size of the screen out of a report of `xdpyinfo`.
pub fn read_resolution(text: &str) -> (size: Option<(u32, u32)>)
    ensures
        size == resolution_of(text@),
{
    let chars = to_chars(text);
    let all = lines(chars.as_slice());
    let key = to_chars(DIMENSIONS_KEY);
    let ghost list = char_lists(all@);
    let mut i: usize = 0;
    assert(list.skip(0) =~= list);
    while i < all.len()
        invariant
            i <= all.len(),
            list == char_lists(all@),
            list == lines_of(text@),
            key@ == DIMENSIONS_KEY@,
            line_with(list, key@) == line_with(list.skip(i as int), key@),
        decreases all.len() - i,
    {
        let l = trim(all[i].as_slice());
        proof {
            assert(list.skip(i as int)[0] == all@[i as int]@);
            assert(list.skip(i as int).drop_first() =~= list.skip(i + 1));
        }
        if starts_with(l.as_slice(), key.as_slice()) {
            let from_first = trim_start(l.as_slice());
            let after_first = tail(from_first, find_white(from_first));
            let from_second = trim_start(after_first);
            if from_second.len() == 0 {
                return None;
            }
            return read_size(head(from_second, find_white(from_second)));
        }
        i += 1;
    }
    None
}

/// The display that is captured where the environment names none.
pub const DEFAULT_DISPLAY: &'static str = ":0";

/// The width that the screen is taken to have where nothing reports it.
pub const DEFAULT_SCREEN_WIDTH: u32 = 1920;

/// The height that the screen is taken to have where nothing reports it.
pub const DEFAULT_SCREEN_HEIGHT: u32 = 1080;

/// The title under which the whole screen stands in a list of titles.
pub const ENTIRE_SCREEN: &'static str = "Entire Screen";

/// The greatest even number that is not above `v`.
pub open spec fn even_below(v: u32) -> u32 {
    (v - v % 2) as u32
}

/// A width and a height as one text, like `1920x1080`.
pub open spec fn size_text(width: u32, height: u32) -> Seq<char> {
    decimal_of(width as nat) + seq!['x'] + decimal_of(height as nat)
}

/// The arguments that make the capturing program read an X11 display.
pub open spec fn grab_args(size: Seq<char>, input: Seq<char>) -> Seq<Seq<char>> {
    seq!["-f"@, "x11grab"@, "-framerate"@, "10"@, "-video_size"@, size, "-i"@, input]
}

/// The input arguments for an X11 display. With a window's place and size,
/// the picture has the window's size, made even, and starts at its place;
/// without, it is the whole screen in the reported size, or in the default
/// one where nothing is reported.
pub open spec fn x11_args(
    display: Seq<char>,
    geometry: Option<Geometry>,
    resolution: Option<(u32, u32)>,
) -> Seq<Seq<char>> {
    match geometry {
        Some(g) => grab_args(
            size_text(even_below(g.width), even_below(g.height)),
            display + seq!['+'] + signed_decimal_of(g.x as int) + seq![','] + signed_decimal_of(
                g.y as int,
            ),
        ),
        None => match resolution {
            Some(r) => grab_args(size_text(r.0, r.1), display),
            None => grab_args(size_text(DEFAULT_SCREEN_WIDTH, DEFAULT_SCREEN_HEIGHT), display),
        },
    }
}

fn push_arg(args: &mut Vec<String>, arg: &str)
    ensures
        texts(final(args)@) == texts(old(args)@).push(arg@),
{
    args.push(String::from_str(arg));
    assert(texts(args@) =~= texts(old(args)@).push(arg@));
}

fn write_size(width: u32, height: u32) -> (s: String)
    ensures
        s@ == size_text(width, height),
{
    let mut s = decimal(width as u64);
    push_char(&mut s, 'x');
    let h = decimal(height as u64);
    s.append(h.as_str());
    assert(s@ =~= size_text(width, height));
    s
}

/// Writes the input arguments for an X11 display.
pub fn x11_input(display: &str, geometry: Option<Geometry>, resolution: Option<(u32, u32)>) -> (args:
    Vec<String>)
    ensures
        texts(args@) == x11_args(display@, geometry, resolution),
{
    let (size, input) = match geometry {
        Some(g) => {
            let mut input = String::from_str(display);
            push_char(&mut input, '+');
            let x = signed_decimal(g.x);
            input.append(x.as_str());
            push_char(&mut input, ',');
            let y = signed_decimal(g.y);
            input.append(y.as_str());
            assert(input@ =~= display@ + seq!['+'] + signed_decimal_of(g.x as int) + seq![',']
                + signed_decimal_of(g.y as int));
            (write_size(g.width - g.width % 2, g.height - g.height % 2), input)
        },
        None => match resolution {
            Some(r) => (write_size(r.0, r.1), String::from_str(display)),
            None => (
                write_size(DEFAULT_SCREEN_WIDTH, DEFAULT_SCREEN_HEIGHT),
                String::from_str(display),
            ),
        },
    };
    let mut args: Vec<String> = Vec::new();
    assert(texts(args@) =~= Seq::<Seq<char>>::empty());
    push_arg(&mut args, "-f");
    push_arg(&mut args, "x11grab");
    push_arg(&mut args, "-framerate");
    push_arg(&mut args, "10");
    push_arg(&mut args, "-video_size");
    push_arg(&mut args, size.as_str());
    push_arg(&mut args, "-i");
    push_arg(&mut args, input.as_str());
    assert(texts(args@) =~= grab_args(size@, input@));
    args
}

/// The input arguments on a Wayland desktop, where the screen cannot be
/// read: a black picture.
pub open spec fn wayland_args() -> Seq<Seq<char>> {
    seq!["-f"@, "lavfi"@, "-i"@, "color=c=black:s=1920x1080:r=10"@]
}

/// Writes the input arguments on a Wayland desktop.
pub fn wayland_input() -> (args: Vec<String>)
    ensures
        texts(args@) == wayland_args(),
{
    let mut args: Vec<String> = Vec::new();
    assert(texts(args@) =~= Seq::<Seq<char>>::empty());
    push_arg(&mut args, "-f");
    push_arg(&mut args, "lavfi");
    push_arg(&mut args, "-i");
    push_arg(&mut args, "color=c=black:s=1920x1080:r=10");
    assert(texts(args@) =~= wayland_args());
    args
}

/// The input arguments on Windows: the desktop, or the window of a title.
pub open spec fn gdi_args(target: CaptureTargetView) -> Seq<Seq<char>> {
    seq![
        "-f"@,
        "gdigrab"@,
        "-framerate"@,
        "10"@,
        "-i"@,
        match target {
            CaptureTargetView::FullScreen => "desktop"@,
            CaptureTargetView::Window { id, title } => "title="@ + title,
        },
    ]
}

/// Writes the input arguments on Windows.
pub fn gdi_input(target: &CaptureTarget) -> (args: Vec<String>)
    ensures
        texts(args@) == gdi_args(target@),
{
    let input = match target {
        CaptureTarget::FullScreen => String::from_str("desktop"),
        CaptureTarget::Window { id, title } => join_texts("title=", title.as_str()),
    };
    let mut args: Vec<String> = Vec::new();
    assert(texts(args@) =~= Seq::<Seq<char>>::empty());
    push_arg(&mut args, "-f");
    push_arg(&mut args, "gdigrab");
    push_arg(&mut args, "-framerate");
    push_arg(&mut args, "10");
    push_arg(&mut args, "-i");
    push_arg(&mut args, input.as_str());
    assert(texts(args@) =~= gdi_args(target@));
    args
}

/// The input arguments on macOS: the first screen, with the cursor.
pub open spec fn avfoundation_args() -> Seq<Seq<char>> {
    seq![
        "-f"@,
        "avfoundation"@,
        "-framerate"@,
        "10"@,
        "-capture_cursor"@,
        "1"@,
        "-i"@,
        "Capture screen 0:"@,
    ]
}

/// Writes the input arguments on macOS.
pub fn avfoundation_input() -> (args: Vec<String>)
    ensures
        texts(args@) == avfoundation_args(),
{
    let mut args: Vec<String> = Vec::new();
    assert(texts(args@) =~= Seq::<Seq<char>>::empty());
    push_arg(&mut args, "-f");
    push_arg(&mut args, "avfoundation");
    push_arg(&mut args, "-framerate");
    push_arg(&mut args, "10");
    push_arg(&mut args, "-capture_cursor");
    push_arg(&mut args, "1");
    push_arg(&mut args, "-i");
    push_arg(&mut args, "Capture screen 0:");
    assert(texts(args@) =~= avfoundation_args());
    args
}

/// The filter that scales a picture into the frame size and pads what is
/// left, keeping the picture's proportions.
pub open spec fn scale_filter(width: u32, height: u32) -> Seq<char> {
    let w = decimal_of(width as nat);
    let h = decimal_of(height as nat);
    "scale="@ + w + ":"@ + h + ":force_original_aspect_ratio=decrease,pad="@ + w + ":"@ + h
        + ":(ow-iw)/2:(oh-ih)/2"@
}

/// The output arguments: JPEG images of the frame size, one after the
/// other on the standard output, at the frame rate of screen sharing.
pub open spec fn output_args() -> Seq<Seq<char>> {
    seq![
        "-vf"@,
        scale_filter(SCREEN_WIDTH, SCREEN_HEIGHT),
        "-f"@,
        "image2pipe"@,
        "-vcodec"@,
        "mjpeg"@,
        "-q:v"@,
        "5"@,
        "-r"@,
        decimal_of(SCREEN_FPS as nat),
        "pipe:1"@,
    ]
}

/// Writes the output arguments.
pub fn output() -> (args: Vec<String>)
    ensures
        texts(args@) == output_args(),
{
    let w = decimal(SCREEN_WIDTH as u64);
    let h = decimal(SCREEN_HEIGHT as u64);
    let mut scale = String::from_str("scale=");
    scale.append(w.as_str());
    scale.append(":");
    scale.append(h.as_str());
    scale.append(":force_original_aspect_ratio=decrease,pad=");
    scale.append(w.as_str());
    scale.append(":");
    scale.append(h.as_str());
    scale.append(":(ow-iw)/2:(oh-ih)/2");
    let rate = decimal(SCREEN_FPS as u64);
    let mut args: Vec<String> = Vec::new();
    assert(texts(args@) =~= Seq::<Seq<char>>::empty());
    push_arg(&mut args, "-vf");
    push_arg(&mut args, scale.as_str());
    push_arg(&mut args, "-f");
    push_arg(&mut args, "image2pipe");
    push_arg(&mut args, "-vcodec");
    push_arg(&mut args, "mjpeg");
    push_arg(&mut args, "-q:v");
    push_arg(&mut args, "5");
    push_arg(&mut args, "-r");
    push_arg(&mut args, rate.as_str());
    push_arg(&mut args, "pipe:1");
    assert(texts(args@) =~= output_args());
    args
}

/// The rows of the list that the user chooses from: the whole screen under
/// its own id, then each window's id and title.
pub open spec fn choice_rows(windows: Seq<ScreenInfoView>) -> Seq<Seq<char>>
    decreases windows.len(),
{
    if windows.len() == 0 {
        seq![crate::media::screen::FULLSCREEN_CHOICE@, ENTIRE_SCREEN@]
    } else {
        choice_rows(windows.drop_last()).push(windows.last().id).push(windows.last().name)
    }
}

/// Writes the rows of the list that the user chooses from.
pub fn choices(windows: &Vec<ScreenInfo>) -> (rows: Vec<String>)
    ensures
        texts(rows@) == choice_rows(views(windows@)),
{
    let mut rows: Vec<String> = Vec::new();
    assert(texts(rows@) =~= Seq::<Seq<char>>::empty());
    push_arg(&mut rows, crate::media::screen::FULLSCREEN_CHOICE);
    push_arg(&mut rows, ENTIRE_SCREEN);
    let mut i: usize = 0;
    assert(views(windows@).take(0) =~= Seq::<ScreenInfoView>::empty());
    assert(texts(rows@) =~= choice_rows(Seq::<ScreenInfoView>::empty()));
    while i < windows.len()
        invariant
            i <= windows.len(),
            texts(rows@) == choice_rows(views(windows@).take(i as int)),
        decreases windows.len() - i,
    {
        proof {
            let now = views(windows@).take(i + 1);
            assert(now.drop_last() =~= views(windows@).take(i as int));
            assert(now.last() == windows@[i as int]@);
        }
        push_arg(&mut rows, windows[i].id.as_str());
        push_arg(&mut rows, windows[i].name.as_str());
        i += 1;
    }
    assert(views(windows@).take(windows@.len() as int) =~= views(windows@));
    rows
}

/// Whether `needle` stands somewhere in `hay`.
pub open spec fn holds_text(hay: Seq<char>, needle: Seq<char>) -> bool {
    exists|i: int| stands_at(hay, needle, i)
}

/// Whether `needle` stands in `hay` at place `i`.
pub open spec fn stands_at(hay: Seq<char>, needle: Seq<char>, i: int) -> bool {
    0 <= i && i + needle.len() <= hay.len() && hay.subrange(i, i + needle.len()) == needle
}

/// Whether `needle` stands somewhere in `hay`.
pub fn contains_text(hay: &[char], needle: &[char]) -> (b: bool)
    ensures
        b == holds_text(hay@, needle@),
{
    if needle.len() > hay.len() {
        assert forall|i: int| !stands_at(hay@, needle@, i) by {}
        return false;
    }
    let last = hay.len() - needle.len();
    let mut i: usize = 0;
    while i <= last
        invariant
            i <= last + 1,
            last == hay.len() - needle.len(),
            needle.len() <= hay.len(),
            forall|k: int| 0 <= k < i ==> !stands_at(hay@, needle@, k),
        decreases last + 1 - i,
    {
        if starts_with(tail(hay, i), needle) {
            assert(hay@.skip(i as int).subrange(0, needle@.len() as int) =~= hay@.subrange(
                i as int,
                i + needle@.len(),
            ));
            assert(stands_at(hay@, needle@, i as int));
            return true;
        }
        assert(hay@.skip(i as int).subrange(0, needle@.len() as int) =~= hay@.subrange(
            i as int,
            i + needle@.len(),
        ));
        i += 1;
    }
    assert forall|k: int| !stands_at(hay@, needle@, k) by {}
    false
}

/// Whether a window goes by a title loosely: one of the two texts holds the
/// other.
pub open spec fn near_title(name: Seq<char>, selection: Seq<char>) -> bool {
    holds_text(name, selection) || holds_text(selection, name)
}

/// The first window of exactly this title, if there is one.
pub open spec fn window_titled(windows: Seq<ScreenInfoView>, selection: Seq<char>) -> Option<
    ScreenInfoView,
>
    decreases windows.len(),
{
    if windows.len() == 0 {
        None
    } else if windows[0].name == selection {
        Some(windows[0])
    } else {
        window_titled(windows.drop_first(), selection)
    }
}

/// The first window that goes by this title loosely, if there is one.
pub open spec fn window_near(windows: Seq<ScreenInfoView>, selection: Seq<char>) -> Option<
    ScreenInfoView,
>
    decreases windows.len(),
{
    if windows.len() == 0 {
        None
    } else if near_title(windows[0].name, selection) {
        Some(windows[0])
    } else {
        window_near(windows.drop_first(), selection)
    }
}

/// What a chosen title means. Nothing, or the word `false`, is a
/// cancellation. The title of the whole screen means the whole screen.
/// Else the first window of exactly this title is meant, or failing that the
/// first that goes by it loosely; where there is none, the whole screen.
pub open spec fn target_by_title(selection: Seq<char>, windows: Seq<ScreenInfoView>) -> Option<
    CaptureTargetView,
> {
    if selection.len() == 0 || selection == "false"@ {
        None
    } else if selection == ENTIRE_SCREEN@ {
        Some(CaptureTargetView::FullScreen)
    } else {
        match window_titled(windows, selection) {
            Some(w) => Some(CaptureTargetView::Window { id: w.id, title: w.name }),
            None => match window_near(windows, selection) {
                Some(w) => Some(CaptureTargetView::Window { id: w.id, title: w.name }),
                None => Some(CaptureTargetView::FullScreen),
            },
        }
    }
}

fn find_titled(windows: &Vec<ScreenInfo>, selection: &str) -> (found: Option<usize>)
    ensures
        match found {
            Some(i) => i < windows@.len() && window_titled(views(windows@), selection@) == Some(
                windows@[i as int]@,
            ),
            None => window_titled(views(windows@), selection@) is None,
        },
{
    let ghost all = views(windows@);
    let mut i: usize = 0;
    assert(all.skip(0) =~= all);
    while i < windows.len()
        invariant
            i <= windows.len(),
            all == views(windows@),
            window_titled(all, selection@) == window_titled(all.skip(i as int), selection@),
        decreases windows.len() - i,
    {
        assert(all.skip(i as int)[0] == windows@[i as int]@);
        assert(all.skip(i as int).drop_first() =~= all.skip(i + 1));
        if crate::text::str_equal(windows[i].name.as_str(), selection) {
            return Some(i);
        }
        i += 1;
    }
    None
}

fn find_near(windows: &Vec<ScreenInfo>, selection: &str) -> (found: Option<usize>)
    ensures
        match found {
            Some(i) => i < windows@.len() && window_near(views(windows@), selection@) == Some(
                windows@[i as int]@,
            ),
            None => window_near(views(windows@), selection@) is None,
        },
{
    let chosen = to_chars(selection);
    let ghost all = views(windows@);
    let mut i: usize = 0;
    assert(all.skip(0) =~= all);
    while i < windows.len()
        invariant
            i <= windows.len(),
            all == views(windows@),
            chosen@ == selection@,
            window_near(all, selection@) == window_near(all.skip(i as int), selection@),
        decreases windows.len() - i,
    {
        assert(all.skip(i as int)[0] == windows@[i as int]@);
        assert(all.skip(i as int).drop_first() =~= all.skip(i + 1));
        let name = to_chars(windows[i].name.as_str());
        if contains_text(name.as_slice(), chosen.as_slice()) || contains_text(
            chosen.as_slice(),
            name.as_slice(),
        ) {
            return Some(i);
        }
        i += 1;
    }
    None
}

/// Reads the title that the user chose from a list of titles.
pub fn choose_by_title(selection: &str, windows: &Vec<ScreenInfo>) -> (target: Option<
    CaptureTarget,
>)
    ensures
        opt_view(target) == target_by_title(selection@, views(windows@)),
{
    if selection.unicode_len() == 0 || crate::text::str_equal(selection, "false") {
        return None;
    }
    if crate::text::str_equal(selection, ENTIRE_SCREEN) {
        return Some(CaptureTarget::FullScreen);
    }
    let found = match find_titled(windows, selection) {
        Some(i) => Some(i),
        None => find_near(windows, selection),
    };
    match found {
        Some(i) => Some(
            CaptureTarget::Window { id: windows[i].id.clone(), title: windows[i].name.clone() },
        ),
        None => Some(CaptureTarget::FullScreen),
    }
}

/// `s` with each `c` replaced by `with`.
pub open spec fn escaped(s: Seq<char>, c: char, with: Seq<char>) -> Seq<char>
    decreases s.len(),
{
    if s.len() == 0 {
        Seq::empty()
    } else {
        escaped(s.drop_last(), c, with) + if s.last() == c {
            with
        } else {
            seq![s.last()]
        }
    }
}

/// A title between two quotes, each quote inside it replaced by `with`.
pub open spec fn quoted(title: Seq<char>, quote: char, with: Seq<char>) -> Seq<char> {
    seq![quote] + escaped(title, quote, with) + seq![quote]
}

/// Writes a title between two quotes, each quote inside it replaced by
/// `with`.
pub fn quote_title(title: &str, quote: char, with: &str) -> (s: String)
    ensures
        s@ == quoted(title@, quote, with@),
{
    let chars = to_chars(title);
    let mut s = String::new();
    push_char(&mut s, quote);
    let mut i: usize = 0;
    assert(chars@.take(0) =~= Seq::<char>::empty());
    assert(s@ =~= seq![quote] + escaped(chars@.take(0), quote, with@));
    while i < chars.len()
        invariant
            i <= chars.len(),
            s@ == seq![quote] + escaped(chars@.take(i as int), quote, with@),
        decreases chars.len() - i,
    {
        proof {
            let now = chars@.take(i + 1);
            assert(now.drop_last() =~= chars@.take(i as int));
            assert(now.last() == chars@[i as int]);
        }
        let ghost before = s@;
        if chars[i] == quote {
            s.append(with);
            assert(s@ =~= seq![quote] + escaped(chars@.take(i + 1), quote, with@));
        } else {
            push_char(&mut s, chars[i]);
            assert(s@ =~= seq![quote] + escaped(chars@.take(i + 1), quote, with@));
        }
        i += 1;
    }
    assert(chars@.take(chars@.len() as int) =~= chars@);
    push_char(&mut s, quote);
    s
}

/// The titles of the list that the user chooses from, each in quotes and
/// with `separator` before all but the first: the whole screen, then the
/// windows.
pub open spec fn quoted_titles(
    windows: Seq<ScreenInfoView>,
    quote: char,
    with: Seq<char>,
    separator: Seq<char>,
) -> Seq<char>
    decreases windows.len(),
{
    if windows.len() == 0 {
        quoted(ENTIRE_SCREEN@, quote, with)
    } else {
        quoted_titles(windows.drop_last(), quote, with, separator) + separator + quoted(
            windows.last().name,
            quote,
            with,
        )
    }
}

/// Writes the titles of the list that the user chooses from.
pub fn quote_titles(windows: &Vec<ScreenInfo>, quote: char, with: &str, separator: &str) -> (s:
    String)
    ensures
        s@ == quoted_titles(views(windows@), quote, with@, separator@),
{
    let mut s = quote_title(ENTIRE_SCREEN, quote, with);
    let mut i: usize = 0;
    assert(views(windows@).take(0) =~= Seq::<ScreenInfoView>::empty());
    while i < windows.len()
        invariant
            i <= windows.len(),
            s@ == quoted_titles(views(windows@).take(i as int), quote, with@, separator@),
        decreases windows.len() - i,
    {
        proof {
            let now = views(windows@).take(i + 1);
            assert(now.drop_last() =~= views(windows@).take(i as int));
            assert(now.last() == windows@[i as int]@);
        }
        s.append(separator);
        let q = quote_title(windows[i].name.as_str(), quote, with);
        s.append(q.as_str());
        i += 1;
    }
    assert(views(windows@).take(windows@.len() as int) =~= views(windows@));
    s
}

/// The PowerShell script that shows the list of titles in a grid and prints
/// the one that the user picks.
pub open spec fn grid_view_script(windows: Seq<ScreenInfoView>) -> Seq<char> {
    "@("@ + quoted_titles(windows, '\'', "''"@, ","@)
        + ") | Out-GridView -Title 'Share your screen' -PassThru"@
}

/// Writes the PowerShell script that shows the list of titles.
pub fn write_grid_view_script(windows: &Vec<ScreenInfo>) -> (s: String)
    ensures
        s@ == grid_view_script(views(windows@)),
{
    let mut s = String::from_str("@(");
    let titles = quote_titles(windows, '\'', "''", ",");
    s.append(titles.as_str());
    s.append(") | Out-GridView -Title 'Share your screen' -PassThru");
    s
}

/// The AppleScript that shows the list of titles and gives back the one
/// that the user picks.
pub open spec fn choose_list_script(windows: Seq<ScreenInfoView>) -> Seq<char> {
    "choose from list {"@ + quoted_titles(windows, '"', "\\\""@, ", "@)
        + "} with title \"Share Screen\" with prompt \"Select what to share:\""@
}

/// Writes the AppleScript that shows the list of titles.
pub fn write_choose_list_script(windows: &Vec<ScreenInfo>) -> (s: String)
    ensures
        s@ == choose_list_script(views(windows@)),
{
    let mut s = String::from_str("choose from list {");
    let titles = quote_titles(windows, '"', "\\\"", ", ");
    s.append(titles.as_str());
    s.append("} with title \"Share Screen\" with prompt \"Select what to share:\"");
    s
}

/// Where Flatpak keeps the runtimes that may bring the capturing program,
/// below the user's home directory.
pub open spec fn flatpak_runtimes(home: Seq<char>) -> Seq<char> {
    home + "/.local/share/flatpak/runtime/org.freedesktop.Platform"@
}

/// Writes where Flatpak keeps its runtimes below a home directory.
pub fn flatpak_runtime_dir(home: &str) -> (dir: String)
    ensures
        dir@ == flatpak_runtimes(home@),
{
    join_texts(home, "/.local/share/flatpak/runtime/org.freedesktop.Platform")
}

/// Where the capturing program lies inside a Flatpak runtime.
pub const FLATPAK_PROGRAM: &'static str = "files/bin/ffmpeg";

/// The places where the capturing program is looked for on Linux, in the
/// order in which they are tried: the search path, the two usual
/// directories, then what was found in Flatpak runtimes.
pub open spec fn linux_candidates(in_runtimes: Seq<Seq<char>>) -> Seq<Seq<char>> {
    seq!["ffmpeg"@, "/usr/bin/ffmpeg"@, "/usr/local/bin/ffmpeg"@] + in_runtimes
}

/// Lists the places where the capturing program is looked for on Linux.
pub fn linux_ffmpeg_candidates(in_runtimes: &Vec<String>) -> (places: Vec<String>)
    ensures
        texts(places@) == linux_candidates(texts(in_runtimes@)),
{
    let mut places: Vec<String> = Vec::new();
    assert(texts(places@) =~= Seq::<Seq<char>>::empty());
    push_arg(&mut places, "ffmpeg");
    push_arg(&mut places, "/usr/bin/ffmpeg");
    push_arg(&mut places, "/usr/local/bin/ffmpeg");
    let ghost fixed = texts(places@);
    assert(fixed =~= seq!["ffmpeg"@, "/usr/bin/ffmpeg"@, "/usr/local/bin/ffmpeg"@]);
    let mut i: usize = 0;
    assert(texts(in_runtimes@).take(0) =~= Seq::<Seq<char>>::empty());
    assert(fixed + Seq::<Seq<char>>::empty() =~= fixed);
    while i < in_runtimes.len()
        invariant
            i <= in_runtimes.len(),
            texts(places@) == fixed + texts(in_runtimes@).take(i as int),
        decreases in_runtimes.len() - i,
    {
        push_arg(&mut places, in_runtimes[i].as_str());
        assert(texts(in_runtimes@).take(i + 1) =~= texts(in_runtimes@).take(i as int).push(
            in_runtimes@[i as int]@,
        ));
        assert(texts(places@) =~= fixed + texts(in_runtimes@).take(i + 1));
        i += 1;
    }
    assert(texts(in_runtimes@).take(in_runtimes@.len() as int) =~= texts(in_runtimes@));
    places
}

/// One place below a directory, or none where no directory is given.
pub open spec fn place_below(dir: Option<Seq<char>>, rest: Seq<char>) -> Seq<Seq<char>> {
    match dir {
        Some(d) => seq![d + rest],
        None => Seq::empty(),
    }
}

/// The places where the capturing program is looked for on Windows: the
/// search path, three usual directories, then one below the local
/// application data and one below the user's profile, where the environment
/// names them.
pub open spec fn windows_candidates(
    local_app_data: Option<Seq<char>>,
    user_profile: Option<Seq<char>>,
) -> Seq<Seq<char>> {
    seq![
        "ffmpeg"@,
        "C:\\ffmpeg\\bin\\ffmpeg.exe"@,
        "C:\\Program Files\\ffmpeg\\bin\\ffmpeg.exe"@,
        "C:\\ProgramData\\chocolatey\\bin\\ffmpeg.exe"@,
    ] + place_below(local_app_data, "\\Microsoft\\WinGet\\Links\\ffmpeg.exe"@) + place_below(
        user_profile,
        "\\scoop\\shims\\ffmpeg.exe"@,
    )
}

/// Lists the places where the capturing program is looked for on Windows.
pub fn windows_ffmpeg_candidates(local_app_data: Option<&str>, user_profile: Option<&str>) -> (places:
    Vec<String>)
    ensures
        texts(places@) == windows_candidates(
            match local_app_data {
                Some(d) => Some(d@),
                None => None,
            },
            match user_profile {
                Some(d) => Some(d@),
                None => None,
            },
        ),
{
    let mut places: Vec<String> = Vec::new();
    assert(texts(places@) =~= Seq::<Seq<char>>::empty());
    push_arg(&mut places, "ffmpeg");
    push_arg(&mut places, "C:\\ffmpeg\\bin\\ffmpeg.exe");
    push_arg(&mut places, "C:\\Program Files\\ffmpeg\\bin\\ffmpeg.exe");
    push_arg(&mut places, "C:\\ProgramData\\chocolatey\\bin\\ffmpeg.exe");
    match local_app_data {
        Some(dir) => {
            let place = join_texts(dir, "\\Microsoft\\WinGet\\Links\\ffmpeg.exe");
            push_arg(&mut places, place.as_str());
        },
        None => {},
    }
    match user_profile {
        Some(dir) => {
            let place = join_texts(dir, "\\scoop\\shims\\ffmpeg.exe");
            push_arg(&mut places, place.as_str());
        },
        None => {},
    }
    assert(texts(places@) =~= windows_candidates(
        match local_app_data {
            Some(d) => Some(d@),
            None => None,
        },
        match user_profile {
            Some(d) => Some(d@),
            None => None,
        },
    ));
    places
}

/// The places where the capturing program is looked for on macOS.
pub open spec fn macos_candidates() -> Seq<Seq<char>> {
    seq!["ffmpeg"@, "/opt/homebrew/bin/ffmpeg"@, "/usr/local/bin/ffmpeg"@]
}

/// Lists the places where the capturing program is looked for on macOS.
pub fn macos_ffmpeg_candidates() -> (places: Vec<String>)
    ensures
        texts(places@) == macos_candidates(),
{
    let mut places: Vec<String> = Vec::new();
    assert(texts(places@) =~= Seq::<Seq<char>>::empty());
    push_arg(&mut places, "ffmpeg");
    push_arg(&mut places, "/opt/homebrew/bin/ffmpeg");
    push_arg(&mut places, "/usr/local/bin/ffmpeg");
    assert(texts(places@) =~= macos_candidates());
    places
}

} // verus!
