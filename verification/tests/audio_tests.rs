use lingsubtitle::audio::{
    admit_session_pid, bgra_to_rgba, capture_source, icon_data_url, is_audio_engine, process_name_from_path,
    mix_format, packet_encoding, sort_audio_apps, AudioApp, CaptureSource, PacketEncoding, SubFormat,
};

fn app(pid: u32, name: &str) -> AudioApp {
    AudioApp { pid, name: name.to_string(), icon_data_url: None }
}

#[test]
fn process_name_is_the_file_name() {
    assert_eq!(process_name_from_path("/usr/bin/player"), "player");
    assert_eq!(process_name_from_path("player.exe"), "player.exe");
    assert_eq!(process_name_from_path(""), "");
}

#[test]
fn audio_engine_is_recognised_in_any_case() {
    assert!(is_audio_engine("audiodg.exe"));
    assert!(is_audio_engine("AudioDG.EXE"));
    assert!(!is_audio_engine("audiodg"));
}

#[test]
fn session_pids_are_admitted_once() {
    let mut seen = Vec::new();
    assert!(!admit_session_pid(0, &mut seen));
    assert!(admit_session_pid(42, &mut seen));
    assert!(!admit_session_pid(42, &mut seen));
    assert!(admit_session_pid(7, &mut seen));
    assert_eq!(seen, vec![42, 7]);
}

#[test]
fn apps_are_sorted_by_lower_case_name() {
    let sorted = sort_audio_apps(vec![app(1, "zoom.exe"), app(2, "Chrome.exe"), app(3, "ábc.exe"), app(4, "apple.exe")]);
    let names: Vec<&str> = sorted.iter().map(|a| a.name.as_str()).collect();
    assert_eq!(names, vec!["apple.exe", "Chrome.exe", "zoom.exe", "ábc.exe"]);
    assert!(sort_audio_apps(vec![]).is_empty());
}

#[test]
fn icons_are_swizzled_and_encoded() {
    assert_eq!(bgra_to_rgba(&[1, 2, 3, 4, 5, 6, 7, 8, 9]), vec![3, 2, 1, 4, 7, 6, 5, 8]);
    let url = icon_data_url(&[0u8; 16], 2, 2).unwrap();
    assert!(url.starts_with("data:image/png;base64,iVBORw0KGgo"));
}

#[test]
fn capture_source_decisions() {
    assert_eq!(capture_source(true, None, true).unwrap_err(), "Audio capture is already running");
    assert_eq!(capture_source(false, Some(5), true).unwrap(), CaptureSource::Process(5));
    assert_eq!(capture_source(false, Some(5), false).unwrap_err(), "Process audio capture is only supported on Windows");
    assert_eq!(capture_source(false, None, false).unwrap(), CaptureSource::System);
}

#[test]
fn equal_names_keep_their_order() {
    let sorted = sort_audio_apps(vec![app(9, "b.exe"), app(2, "A.exe"), app(1, "a.exe"), app(3, "A.EXE")]);
    let pids: Vec<u32> = sorted.iter().map(|a| a.pid).collect();
    assert_eq!(pids, vec![2, 1, 3, 9]);
}

#[test]
fn packet_encodings() {
    assert_eq!(packet_encoding(true, false, 8).unwrap(), PacketEncoding::Silence);
    assert_eq!(packet_encoding(false, true, 32).unwrap(), PacketEncoding::Float32);
    assert_eq!(packet_encoding(false, false, 16).unwrap(), PacketEncoding::Pcm16);
    assert_eq!(packet_encoding(false, true, 64).unwrap_err(), "Unsupported audio format (float=true, bits=64)");
    assert_eq!(packet_encoding(false, false, 0).unwrap_err(), "Unsupported audio format (float=false, bits=0)");
    assert_eq!(packet_encoding(false, false, 65535).unwrap_err(), "Unsupported audio format (float=false, bits=65535)");
}

#[test]
fn mix_formats() {
    assert_eq!(mix_format(3, 32, SubFormat::Other, 0).unwrap(), (true, 32));
    assert_eq!(mix_format(1, 16, SubFormat::Other, 0).unwrap(), (false, 16));
    assert_eq!(mix_format(0xFFFE, 0, SubFormat::IeeeFloat, 32).unwrap(), (true, 32));
    assert_eq!(mix_format(0xFFFE, 0, SubFormat::Pcm, 24).unwrap(), (false, 24));
    assert_eq!(mix_format(0xFFFE, 0, SubFormat::Other, 24).unwrap_err(), "Unsupported mix format subformat");
    assert_eq!(mix_format(2, 16, SubFormat::Other, 0).unwrap_err(), "Unsupported mix format tag");
}
