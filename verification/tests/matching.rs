use da2013::settings::Freq;
use da2013::words::{bytes_eq, is_target_device, lower_bytes, parse_bool_word, parse_freq_word};

#[test]
fn bool_words_true() {
    for w in ["on", "true", "1", "enabled"] {
        assert_eq!(parse_bool_word(w.as_bytes()), Some(true), "word {}", w);
    }
}

#[test]
fn bool_words_false() {
    for w in ["off", "false", "0", "disabled"] {
        assert_eq!(parse_bool_word(w.as_bytes()), Some(false), "word {}", w);
    }
}

#[test]
fn bool_words_are_case_insensitive() {
    assert_eq!(parse_bool_word(b"ON"), Some(true));
    assert_eq!(parse_bool_word(b"On"), Some(true));
    assert_eq!(parse_bool_word(b"TRUE"), Some(true));
    assert_eq!(parse_bool_word(b"Enabled"), Some(true));
    assert_eq!(parse_bool_word(b"OFF"), Some(false));
    assert_eq!(parse_bool_word(b"False"), Some(false));
    assert_eq!(parse_bool_word(b"DISABLED"), Some(false));
}

#[test]
fn bool_words_rejected() {
    for w in ["", "yes", "no", "2", "onn", "o", "ont", "offf", "enable", " on"] {
        assert_eq!(parse_bool_word(w.as_bytes()), None, "word {:?}", w);
    }
}

#[test]
fn freq_words() {
    assert!(matches!(parse_freq_word(b"125"), Some(Freq::F125)));
    assert!(matches!(parse_freq_word(b"500"), Some(Freq::F500)));
    assert!(matches!(parse_freq_word(b"1000"), Some(Freq::F1000)));
}

#[test]
fn freq_words_rejected() {
    for w in ["", "250", "12", "1250", "0125", "125 ", "1000hz"] {
        assert!(parse_freq_word(w.as_bytes()).is_none(), "word {:?}", w);
    }
}

#[test]
fn target_device_match() {
    assert!(is_target_device(b"1532", b"0037"));
    assert!(!is_target_device(b"1532", b"0036"));
    assert!(!is_target_device(b"046d", b"0037"));
    assert!(!is_target_device(b"", b""));
    assert!(!is_target_device(b"15320", b"0037"));
}

#[test]
fn byte_helpers() {
    assert!(bytes_eq(b"abc", b"abc"));
    assert!(!bytes_eq(b"abc", b"abd"));
    assert!(!bytes_eq(b"abc", b"ab"));
    assert!(bytes_eq(b"", b""));
    assert_eq!(lower_bytes(b"MiXeD 123!"), b"mixed 123!".to_vec());
}
