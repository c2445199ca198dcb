use chatr::media::capture::{
    flatpak_runtime_dir, linux_ffmpeg_candidates, macos_ffmpeg_candidates, windows_ffmpeg_candidates,
    avfoundation_input, choices, choose_by_title, contains_text, gdi_input, output, quote_title,
    read_barred_window, read_geometry, read_listed_window, read_numbered_window, read_resolution,
    read_size, read_window_numbers, read_windows, shell_keys, starts_with, wayland_input,
    window_entry, write_choose_list_script, write_grid_view_script, write_hex_padded, x11_input,
    xwininfo_keys, Geometry, ListLayout,
};
use chatr::media::screen::{CaptureTarget, ScreenInfo};

fn chars(s: &str) -> Vec<char> {
    s.chars().collect()
}

fn window(id: &str, name: &str) -> ScreenInfo {
    ScreenInfo { name: name.to_string(), id: id.to_string() }
}

#[test]
fn a_window_needs_a_title() {
    assert_eq!(window_entry(&chars(" 0x1 "), &chars("  Editor \t")), Some(window("0x1", "Editor")));
    assert_eq!(window_entry(&chars("0x1"), &chars("   ")), None);
    assert_eq!(window_entry(&chars("0x1"), &chars("")), None);
}

#[test]
fn a_listed_window_has_four_columns() {
    assert_eq!(
        read_listed_window(&chars("0x04600003  0 hostname Window Title Here")),
        Some(window("0x04600003", "Window Title Here"))
    );
    assert_eq!(
        read_listed_window(&chars("0x02000007  1 box\tTerminal one ")),
        Some(window("0x02000007", "Terminal one"))
    );
    assert_eq!(
        read_listed_window(&chars("0x02000007 10 box My Terminal")),
        Some(window("0x02000007", "Terminal"))
    );
    assert_eq!(read_listed_window(&chars("0x02000007 10 box Terminal")), None);
    assert_eq!(read_listed_window(&chars("0x04600003 0")), None);
    assert_eq!(read_listed_window(&chars("")), None);
}

#[test]
fn a_window_on_no_desktop_is_left_out() {
    assert_eq!(read_listed_window(&chars("0x04600003 -1 hostname Panel")), None);
}

#[test]
fn a_listed_window_without_a_title_is_left_out() {
    assert_eq!(read_listed_window(&chars("0x04600003 0 hostname")), None);
    assert_eq!(read_listed_window(&chars("0x04600003 0 hostname   ")), None);
}

#[test]
fn a_window_list_is_read_line_by_line() {
    let text = "0x01  0 host First\n0x02 -1 host Hidden\nshort\n0x03  2 host Third window\r\n";
    assert_eq!(
        read_windows(ListLayout::Columns, text),
        vec![window("0x01", "First"), window("0x03", "Third window")]
    );
    assert_eq!(read_windows(ListLayout::Columns, ""), Vec::<ScreenInfo>::new());
}

#[test]
fn a_barred_line_holds_id_and_title() {
    assert_eq!(read_barred_window(&chars(" 4242|Notes - plans \r")), Some(window("4242", "Notes - plans")));
    assert_eq!(read_barred_window(&chars("a|b|c")), Some(window("a", "b|c")));
    assert_eq!(read_barred_window(&chars("no bar here")), None);
    assert_eq!(read_barred_window(&chars("12|")), None);
    assert_eq!(
        read_windows(ListLayout::Bar, "1|One\n\n2| \n3|Three"),
        vec![window("1", "One"), window("3", "Three")]
    );
}

#[test]
fn window_numbers_are_the_filled_lines() {
    assert_eq!(read_window_numbers("  73400323 \n\n \n1\n"), vec!["73400323".to_string(), "1".to_string()]);
    assert_eq!(read_window_numbers(""), Vec::<String>::new());
}

#[test]
fn a_window_number_becomes_a_hexadecimal_id() {
    assert_eq!(read_numbered_window("73400323", " Editor\n"), Some(window("0x04600003", "Editor")));
    assert_eq!(read_numbered_window("4294967296", "Big"), Some(window("0x100000000", "Big")));
    assert_eq!(read_numbered_window("0", "Zero"), Some(window("0x00000000", "Zero")));
    assert_eq!(read_numbered_window("12a", "Editor"), None);
    assert_eq!(read_numbered_window("12", " "), None);
}

#[test]
fn hexadecimal_digits_are_padded_to_a_width() {
    assert_eq!(write_hex_padded(0, 0), "0");
    assert_eq!(write_hex_padded(0, 1), "0");
    assert_eq!(write_hex_padded(255, 0), "ff");
    assert_eq!(write_hex_padded(255, 4), "00ff");
    assert_eq!(write_hex_padded(u64::MAX, 8), "ffffffffffffffff");
    assert_eq!(write_hex_padded(0xabc, 8), format!("{:08x}", 0xabc));
}

#[test]
fn geometry_is_read_from_shell_output() {
    let text = "WINDOW=73400323\nX=120\nY=-35\nWIDTH=801\nHEIGHT=600\nSCREEN=0\n";
    assert_eq!(
        read_geometry(text, &shell_keys()),
        Some(Geometry { x: 120, y: -35, width: 801, height: 600 })
    );
}

#[test]
fn geometry_is_read_from_xwininfo_output() {
    let text = "\nxwininfo: Window id: 0x4600003 \"Editor\"\n\n  Absolute upper-left X:  10\n  Absolute upper-left Y:  +20\n  Relative upper-left X:  0\n  Width: 640\n  Height: 480\n  Depth: 24\n";
    assert_eq!(
        read_geometry(text, &xwininfo_keys()),
        Some(Geometry { x: 10, y: 20, width: 640, height: 480 })
    );
}

#[test]
fn geometry_needs_a_width_and_a_height() {
    assert_eq!(read_geometry("X=1\nY=2\nWIDTH=0\nHEIGHT=600\n", &shell_keys()), None);
    assert_eq!(read_geometry("X=1\nY=2\nWIDTH=800\n", &shell_keys()), None);
    assert_eq!(read_geometry("X=1\nY=2\nWIDTH=wide\nHEIGHT=600\n", &shell_keys()), None);
    assert_eq!(read_geometry("", &shell_keys()), None);
}

#[test]
fn a_place_that_is_no_number_counts_as_zero() {
    assert_eq!(
        read_geometry("X=left\nWIDTH=8\nHEIGHT=6\n", &shell_keys()),
        Some(Geometry { x: 0, y: 0, width: 8, height: 6 })
    );
    assert_eq!(
        read_geometry("X=2147483648\nY=-2147483648\nWIDTH=4294967295\nHEIGHT=1\n", &shell_keys()),
        Some(Geometry { x: 0, y: i32::MIN, width: u32::MAX, height: 1 })
    );
}

#[test]
fn the_first_line_with_a_key_counts() {
    assert_eq!(
        read_geometry("WIDTH=bad\nWIDTH=800\nHEIGHT=600\n", &shell_keys()),
        None
    );
    assert_eq!(
        read_geometry("WIDTH=800\nWIDTH=1\nHEIGHT=600\n", &shell_keys()),
        Some(Geometry { x: 0, y: 0, width: 800, height: 600 })
    );
}

#[test]
fn resolution_is_read_from_the_dimensions_line() {
    let text = "name of display:    :0\nscreen #0:\n  dimensions:    1920x1080 pixels (508x285 millimeters)\n  resolution:    96x96 dots per inch\n";
    assert_eq!(read_resolution(text), Some((1920, 1080)));
    assert_eq!(read_resolution("dimensions: 2560x1440"), Some((2560, 1440)));
}

#[test]
fn resolution_is_missing_where_the_line_is_missing_or_odd() {
    assert_eq!(read_resolution("screen #0:\n  resolution: 96x96\n"), None);
    assert_eq!(read_resolution("dimensions:\n"), None);
    assert_eq!(read_resolution("dimensions: 1920*1080\n"), None);
    assert_eq!(read_resolution("dimensions: 1920x\ndimensions: 1x1\n"), None);
    assert_eq!(read_resolution("dimensions:1920x1080 pixels\n"), None);
    assert_eq!(read_resolution(""), None);
}

#[test]
fn a_size_is_two_numbers_around_an_x() {
    assert_eq!(read_size(&chars("640x480")), Some((640, 480)));
    assert_eq!(read_size(&chars("640x480x3")), None);
    assert_eq!(read_size(&chars("x480")), None);
    assert_eq!(read_size(&chars("640")), None);
}

fn strings(args: &[&str]) -> Vec<String> {
    args.iter().map(|s| s.to_string()).collect()
}

#[test]
fn a_window_is_grabbed_at_its_place_in_an_even_size() {
    let geometry = Geometry { x: 120, y: -35, width: 801, height: 600 };
    assert_eq!(
        x11_input(":0", Some(geometry), None),
        strings(&["-f", "x11grab", "-framerate", "10", "-video_size", "800x600", "-i", ":0+120,-35"])
    );
    let small = Geometry { x: 0, y: 0, width: 1, height: 3 };
    assert_eq!(
        x11_input(":1.0", Some(small), Some((1, 1))),
        strings(&["-f", "x11grab", "-framerate", "10", "-video_size", "0x2", "-i", ":1.0+0,0"])
    );
}

#[test]
fn the_whole_screen_is_grabbed_in_its_reported_or_default_size() {
    assert_eq!(
        x11_input(":0", None, Some((2560, 1440))),
        strings(&["-f", "x11grab", "-framerate", "10", "-video_size", "2560x1440", "-i", ":0"])
    );
    assert_eq!(
        x11_input(":0", None, None),
        strings(&["-f", "x11grab", "-framerate", "10", "-video_size", "1920x1080", "-i", ":0"])
    );
}

#[test]
fn the_other_platforms_have_fixed_inputs() {
    assert_eq!(wayland_input(), strings(&["-f", "lavfi", "-i", "color=c=black:s=1920x1080:r=10"]));
    assert_eq!(
        gdi_input(&CaptureTarget::FullScreen),
        strings(&["-f", "gdigrab", "-framerate", "10", "-i", "desktop"])
    );
    assert_eq!(
        gdi_input(&CaptureTarget::Window { id: "7".to_string(), title: "Notes".to_string() }),
        strings(&["-f", "gdigrab", "-framerate", "10", "-i", "title=Notes"])
    );
    assert_eq!(
        avfoundation_input(),
        strings(&["-f", "avfoundation", "-framerate", "10", "-capture_cursor", "1", "-i", "Capture screen 0:"])
    );
}

#[test]
fn the_output_is_scaled_jpeg_on_a_pipe() {
    assert_eq!(
        output(),
        strings(&[
            "-vf",
            "scale=1280:720:force_original_aspect_ratio=decrease,pad=1280:720:(ow-iw)/2:(oh-ih)/2",
            "-f",
            "image2pipe",
            "-vcodec",
            "mjpeg",
            "-q:v",
            "5",
            "-r",
            "10",
            "pipe:1",
        ])
    );
}

#[test]
fn the_choice_list_starts_with_the_whole_screen() {
    assert_eq!(choices(&Vec::new()), strings(&["__fullscreen__", "Entire Screen"]));
    assert_eq!(
        choices(&vec![window("0x1", "One"), window("0x2", "Two")]),
        strings(&["__fullscreen__", "Entire Screen", "0x1", "One", "0x2", "Two"])
    );
}

#[test]
fn one_text_holds_another() {
    assert!(contains_text(&chars("Mozilla Firefox"), &chars("Fire")));
    assert!(contains_text(&chars("Mozilla Firefox"), &chars("Mozilla Firefox")));
    assert!(contains_text(&chars("abc"), &chars("")));
    assert!(contains_text(&chars("aab"), &chars("ab")));
    assert!(!contains_text(&chars("Fire"), &chars("Firefox")));
    assert!(!contains_text(&chars("abc"), &chars("ac")));
    assert!(starts_with(&chars("WIDTH=8"), &chars("WIDTH=")));
    assert!(!starts_with(&chars("WIDT"), &chars("WIDTH=")));
    assert!(!starts_with(&chars(" WIDTH=8"), &chars("WIDTH=")));
}

#[test]
fn a_title_is_matched_exactly_before_loosely() {
    let windows = vec![window("1", "Editor - notes"), window("2", "Editor"), window("3", "Mail")];
    assert_eq!(
        choose_by_title("Editor", &windows),
        Some(CaptureTarget::Window { id: "2".to_string(), title: "Editor".to_string() })
    );
    assert_eq!(
        choose_by_title("notes", &windows),
        Some(CaptureTarget::Window { id: "1".to_string(), title: "Editor - notes".to_string() })
    );
    assert_eq!(
        choose_by_title("Mail (3 unread)", &windows),
        Some(CaptureTarget::Window { id: "3".to_string(), title: "Mail".to_string() })
    );
}

#[test]
fn a_title_that_names_nothing_means_the_whole_screen() {
    let windows = vec![window("1", "Editor")];
    assert_eq!(choose_by_title("Entire Screen", &windows), Some(CaptureTarget::FullScreen));
    assert_eq!(choose_by_title("Browser", &windows), Some(CaptureTarget::FullScreen));
    assert_eq!(choose_by_title("", &windows), None);
    assert_eq!(choose_by_title("false", &windows), None);
}

#[test]
fn quotes_inside_a_title_are_escaped() {
    assert_eq!(quote_title("it's", '\'', "''"), "'it''s'");
    assert_eq!(quote_title("say \"hi\"", '"', "\\\""), "\"say \\\"hi\\\"\"");
    assert_eq!(quote_title("", '"', "\\\""), "\"\"");
}

#[test]
fn the_dialog_scripts_list_the_titles() {
    let windows = vec![window("1", "Bob's notes"), window("2", "Say \"hi\"")];
    assert_eq!(
        write_grid_view_script(&windows),
        "@('Entire Screen','Bob''s notes','Say \"hi\"') | Out-GridView -Title 'Share your screen' -PassThru"
    );
    assert_eq!(
        write_choose_list_script(&windows),
        "choose from list {\"Entire Screen\", \"Bob's notes\", \"Say \\\"hi\\\"\"} with title \"Share Screen\" with prompt \"Select what to share:\""
    );
    assert_eq!(
        write_grid_view_script(&Vec::new()),
        "@('Entire Screen') | Out-GridView -Title 'Share your screen' -PassThru"
    );
}

#[test]
fn the_capturing_program_is_looked_for_in_the_usual_places() {
    assert_eq!(
        linux_ffmpeg_candidates(&Vec::new()),
        strings(&["ffmpeg", "/usr/bin/ffmpeg", "/usr/local/bin/ffmpeg"])
    );
    assert_eq!(
        linux_ffmpeg_candidates(&strings(&["/a/files/bin/ffmpeg", "/b/files/bin/ffmpeg"])),
        strings(&["ffmpeg", "/usr/bin/ffmpeg", "/usr/local/bin/ffmpeg", "/a/files/bin/ffmpeg", "/b/files/bin/ffmpeg"])
    );
    assert_eq!(
        flatpak_runtime_dir("/home/ann"),
        "/home/ann/.local/share/flatpak/runtime/org.freedesktop.Platform"
    );
    assert_eq!(
        macos_ffmpeg_candidates(),
        strings(&["ffmpeg", "/opt/homebrew/bin/ffmpeg", "/usr/local/bin/ffmpeg"])
    );
}

#[test]
fn windows_adds_places_below_the_directories_that_the_environment_names() {
    let fixed = [
        "ffmpeg",
        r"C:\ffmpeg\bin\ffmpeg.exe",
        r"C:\Program Files\ffmpeg\bin\ffmpeg.exe",
        r"C:\ProgramData\chocolatey\bin\ffmpeg.exe",
    ];
    assert_eq!(windows_ffmpeg_candidates(None, None), strings(&fixed));
    let mut all = strings(&fixed);
    all.push(r"C:\Users\ann\AppData\Local\Microsoft\WinGet\Links\ffmpeg.exe".to_string());
    all.push(r"C:\Users\ann\scoop\shims\ffmpeg.exe".to_string());
    assert_eq!(
        windows_ffmpeg_candidates(Some(r"C:\Users\ann\AppData\Local"), Some(r"C:\Users\ann")),
        all
    );
    let mut one = strings(&fixed);
    one.push(r"D:\me\scoop\shims\ffmpeg.exe".to_string());
    assert_eq!(windows_ffmpeg_candidates(None, Some(r"D:\me")), one);
}
