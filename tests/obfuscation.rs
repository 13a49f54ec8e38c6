use extreme_secret_santa::obf::{deobfuscate, obfuscate};

#[test]
fn round_trip_restores_text() {
    for s in ["", "a", "Hello, World!", "35-28-37", "\u{7f}\u{80}\u{ff}"] {
        assert_eq!(deobfuscate(&obfuscate(s)), s);
    }
}

#[test]
fn obfuscate_keeps_length() {
    for s in ["", "x", "combination", "35-28-37"] {
        assert_eq!(obfuscate(s).chars().count(), s.chars().count());
    }
}

#[test]
fn obfuscate_twice_is_identity() {
    let s = "Slinky Dog Dash";
    assert_eq!(obfuscate(&obfuscate(s)), s);
}

#[test]
fn obfuscate_xors_each_code_with_three() {
    assert_eq!(obfuscate("abc"), "ba`");
    assert_eq!(obfuscate("0123"), "3210");
    assert_ne!(obfuscate("abc"), "abc");
}

#[test]
fn deobfuscate_known_secret() {
    assert_eq!(deobfuscate("06.1;.04"), "35-28-37");
    assert_eq!(obfuscate("35-28-37"), "06.1;.04");
}

#[test]
fn obfuscate_empty() {
    assert_eq!(obfuscate(""), "");
    assert_eq!(deobfuscate(""), "");
}

#[test]
fn obfuscate_single_byte_edges() {
    assert_eq!(obfuscate("\u{0}"), "\u{3}");
    assert_eq!(obfuscate("\u{ff}"), "\u{fc}");
}
