use mfl_gramophone::config::{Config, ConfigInvalid, MediaInfo, PlaybackFile};

fn file(uri: &str) -> PlaybackFile {
    PlaybackFile { uri: uri.to_string(), looping: false }
}

fn config(channels: Vec<String>) -> Result<Config, ConfigInvalid> {
    Config::get(
        vec![
            ("bell".to_string(), file("f.wav")),
            ("horn".to_string(), file("http://example.org/g.ogg")),
            ("bell".to_string(), file("other.wav")),
        ],
        "0.0.0.0:1234".to_string(),
        channels,
        3,
        48000,
    )
}

#[test]
fn get_keeps_what_it_is_given() {
    let cfg = config(vec!["out_L".to_string(), "out_R".to_string()]).unwrap();
    assert_eq!(cfg.listen, "0.0.0.0:1234");
    assert_eq!(cfg.channels, vec!["out_L".to_string(), "out_R".to_string()]);
    assert_eq!(cfg.shutdown_secs, 3);
    assert_eq!(cfg.sample_rate, 48000);
    assert_eq!(cfg.files.len(), 3);
    assert_eq!(cfg.files[1], ("horn".to_string(), file("http://example.org/g.ogg")));
}

#[test]
fn get_refuses_a_configuration_without_channels() {
    assert_eq!(config(vec![]), Err(ConfigInvalid::NoChannels));
}

#[test]
fn get_accepts_a_configuration_without_files() {
    let cfg = Config::get(vec![], "l".to_string(), vec!["c".to_string()], 0, 0).unwrap();
    assert!(cfg.files.is_empty());
    assert_eq!(cfg.uri_of("bell"), None);
}

#[test]
fn uri_of_looks_a_name_up() {
    let cfg = config(vec!["c".to_string()]).unwrap();
    assert_eq!(cfg.uri_of("bell"), Some("f.wav".to_string()));
    assert_eq!(cfg.uri_of("horn"), Some("http://example.org/g.ogg".to_string()));
    assert_eq!(cfg.uri_of("gong"), None);
    assert_eq!(cfg.uri_of(""), None);
    assert_eq!(cfg.uri_of("Bell"), None);
}

#[test]
fn backend_must_run_at_the_configured_rate() {
    let cfg = config(vec!["c".to_string()]).unwrap();
    assert_eq!(cfg.check_backend(48000), Ok(()));
    assert_eq!(cfg.check_backend(44100), Err(ConfigInvalid::SampleRateMismatch));
    assert_eq!(cfg.check_backend(0), Err(ConfigInvalid::SampleRateMismatch));
}

#[test]
fn files_are_probed_at_startup() {
    let cfg = config(vec!["l".to_string(), "r".to_string()]).unwrap();
    assert_eq!(cfg.check_file(None), Err(ConfigInvalid::UnusableFile));
    assert_eq!(
        cfg.check_file(Some(MediaInfo { sample_rate: 44100, channels: 2 })),
        Err(ConfigInvalid::FileRateMismatch)
    );
    assert_eq!(
        cfg.check_file(Some(MediaInfo { sample_rate: 44100, channels: 0 })),
        Err(ConfigInvalid::FileRateMismatch)
    );
    assert_eq!(
        cfg.check_file(Some(MediaInfo { sample_rate: 48000, channels: 0 })),
        Err(ConfigInvalid::FileWithoutChannels)
    );
    assert_eq!(cfg.check_file(Some(MediaInfo { sample_rate: 48000, channels: 1 })), Ok(false));
    assert_eq!(cfg.check_file(Some(MediaInfo { sample_rate: 48000, channels: 2 })), Ok(false));
    assert_eq!(cfg.check_file(Some(MediaInfo { sample_rate: 48000, channels: 3 })), Ok(true));
}
