use deutron::app::{take_trailer, App};
use deutron::base::Base;
use deutron::compiler::{embed, Config};
use deutron::frames::{trailer_bytes, TRAILER_LEN};
use deutron::runtime::take_payload;

fn demo_config(command: Vec<String>) -> Config {
    Config {
        debug: false,
        out: None,
        set_version: "1.0".to_string(),
        terminal: false,
        pack_dir: "./".to_string(),
        no_cache: false,
        dev_tools: true,
        verbose: true,
        target: None,
        command,
    }
}

#[test]
fn round_trip_full_artifact() {
    let image = vec![0x7f, b'E', b'L', b'F', 1, 2, 3];
    let pack = vec![9u8, 8, 7, 6, 5];
    let mut base = Base::new(image.clone());
    let command = vec!["node".to_string(), "server.js".to_string(), "--port=80".to_string()];
    embed(&mut base, &pack, demo_config(command.clone()));
    let artifact = base.into_bytes();

    let mut app = App::load(artifact).expect("artifact must be recognized");
    let payload = take_payload(&mut app).expect("payload must decode");
    assert_eq!(payload.command, command);
    assert_eq!(payload.version, "1.0");
    assert!(payload.dev_tools);
    assert!(!payload.no_cache);
    assert!(payload.verbose);
    let pack_out = app
        .take_pack(false, true)
        .expect("pack must decode")
        .expect("pack must not be skipped");
    assert_eq!(pack_out, pack);
}

#[test]
fn round_trip_empty_values() {
    let image: Vec<u8> = vec![];
    let pack: Vec<u8> = vec![];
    let mut base = Base::new(image);
    let mut config = demo_config(vec![]);
    config.set_version = String::new();
    config.dev_tools = false;
    config.verbose = false;
    embed(&mut base, &pack, config);
    let artifact = base.into_bytes();

    let mut app = App::load(artifact).expect("artifact must be recognized");
    let payload = take_payload(&mut app).expect("payload must decode");
    assert_eq!(payload.command, Vec::<String>::new());
    assert_eq!(payload.version, "");
    assert!(!payload.dev_tools);
    assert!(!payload.no_cache);
    assert!(!payload.verbose);
    let pack_out = app.take_pack(false, false).unwrap().unwrap();
    assert_eq!(pack_out, Vec::<u8>::new());
}

#[test]
fn round_trip_unicode_strings() {
    let mut base = Base::new(vec![1, 2, 3]);
    base.add_string("héllo wörld ✓");
    base.add_strings(vec!["".to_string(), "日本語".to_string()]);
    base.add_trailer();
    let mut app = App::load(base.into_bytes()).unwrap();
    let list = app.take_strings().unwrap();
    assert_eq!(list, vec!["".to_string(), "日本語".to_string()]);
    let s = app.take_string().unwrap();
    assert_eq!(s, "héllo wörld ✓");
}

#[test]
fn take_pack_skips_on_cache_hit() {
    let mut base = Base::new(vec![]);
    base.add_pack(&[1, 2, 3]);
    base.add_trailer();
    let mut app = App::load(base.into_bytes()).unwrap();
    assert_eq!(app.take_pack(true, true).unwrap(), None);
}

#[test]
fn marker_recognized_only_as_true_final_bytes() {
    let mut base = Base::new(vec![10, 20, 30]);
    base.add_trailer();
    let good = base.into_bytes();

    let mut exe = good.clone();
    assert_eq!(take_trailer(&mut exe).unwrap(), true);
    assert_eq!(exe, vec![10, 20, 30]);

    // one byte short
    let mut short = good.clone();
    short.remove(short.len() - 1);
    let before = short.clone();
    assert_eq!(take_trailer(&mut short).unwrap(), false);
    assert_eq!(short, before);

    // one trailer byte flipped
    let mut flipped = good.clone();
    let last = flipped.len() - 1;
    flipped[last] ^= 0xff;
    let before = flipped.clone();
    assert_eq!(take_trailer(&mut flipped).unwrap(), false);
    assert_eq!(flipped, before);

    // buffer shorter than the marker itself
    let mut tiny = vec![1u8, 2];
    assert_eq!(take_trailer(&mut tiny).unwrap(), false);
    assert_eq!(tiny, vec![1, 2]);
}

#[test]
fn bare_image_is_not_packaged() {
    let err = App::load(vec![1, 2, 3, 4]).err().expect("bare image must be rejected");
    assert_eq!(err.0, "Application was not compiled");
}

#[test]
fn trailer_has_fixed_length() {
    assert_eq!(trailer_bytes().len(), TRAILER_LEN);
}

#[test]
fn truncated_frames_are_fatal() {
    // no bytes at all: every pop fails
    let mut base = Base::new(vec![]);
    base.add_trailer();
    let mut app = App::load(base.into_bytes()).unwrap();
    assert!(app.take_flag().is_err());
    assert!(app.take_string().is_err());
    assert!(app.take_strings().is_err());
    assert!(app.take_data().is_err());
    assert!(app.take_pack(false, false).is_err());

    // a block whose trailing length exceeds what precedes it
    let mut base = Base::new(vec![0, 0, 0, 0, 0, 0, 0, 0, 99]);
    base.add_trailer();
    let mut app = App::load(base.into_bytes()).unwrap();
    assert!(app.take_data().is_err());
}

#[test]
fn invalid_utf8_string_is_fatal() {
    let mut base = Base::new(vec![]);
    base.add_data(&[0xff, 0xfe, 0xfd]);
    base.add_trailer();
    let mut app = App::load(base.into_bytes()).unwrap();
    assert!(app.take_string().is_err());
}

#[test]
fn set_icon_is_rejected_off_windows() {
    let mut base = Base::new(vec![1, 2, 3]);
    let err = base.set_icon("favicon.ico").err().unwrap();
    assert_eq!(err.0, "Not supported for targets other then windows");
}

#[test]
fn disable_terminal_rejects_non_pe_bytes() {
    let mut base = Base::new(vec![1, 2, 3, 4]);
    let err = base.disable_terminal().err().unwrap();
    assert_eq!(err.0, "Unable to read executable");
}
