use rot::alphabet::{char_number, is_ascii_letter, is_ascii_upper, letter_at, to_upper};
use rot::rotator::Rotator;

#[test]
fn test_char_number() {
    for (i, c) in "abcdefghijklmnopqrstuvwxyz".chars().enumerate() {
        assert_eq!(char_number(c), i as u8);
    }
    for (i, c) in "ABCDEFGHIJKLMNOPQRSTUVWXYZ".chars().enumerate() {
        assert_eq!(char_number(c), i as u8);
    }
}

#[test]
fn test_rot() {
    let msg = "Once there was a way; to get back home.";
    for n in -50..50 {
        let m = 26 - n;
        let fst = Rotator::new(n);
        let snd = Rotator::new(m);
        for c in msg.chars() {
            let rotd = snd.rot(fst.rot(c));
            assert_eq!(c, rotd);
        }
    }
}

#[test]
fn char_number_at_the_ends() {
    assert_eq!(char_number('a'), 0);
    assert_eq!(char_number('A'), 0);
    assert_eq!(char_number('m'), 12);
    assert_eq!(char_number('N'), 13);
    assert_eq!(char_number('z'), 25);
    assert_eq!(char_number('Z'), 25);
}

#[test]
fn letter_at_inverts_char_number() {
    for n in 0u8..26 {
        let c = letter_at(n);
        assert!(c.is_ascii_lowercase());
        assert_eq!(char_number(c), n);
        assert_eq!(char_number(to_upper(c)), n);
    }
    assert_eq!(letter_at(0), 'a');
    assert_eq!(letter_at(25), 'z');
}

#[test]
fn letter_tests_agree_with_ascii_classes() {
    for code in 0u32..0x250 {
        let c = char::from_u32(code).unwrap();
        assert_eq!(is_ascii_letter(c), c.is_ascii_alphabetic());
        assert_eq!(is_ascii_upper(c), c.is_ascii_uppercase());
        assert_eq!(to_upper(c), c.to_ascii_uppercase());
    }
    assert!(!is_ascii_letter('é'));
    assert!(!is_ascii_letter('Ω'));
    assert!(!is_ascii_upper('Ω'));
    assert_eq!(to_upper('é'), 'é');
}

#[test]
fn rot_moves_letters_by_the_shift() {
    let r = Rotator::new(13);
    assert_eq!(r.rot('a'), 'n');
    assert_eq!(r.rot('n'), 'a');
    assert_eq!(r.rot('H'), 'U');
    assert_eq!(r.rot('z'), 'm');
    assert_eq!(Rotator::new(1).rot('z'), 'a');
    assert_eq!(Rotator::new(1).rot('Z'), 'A');
    assert_eq!(Rotator::new(-1).rot('a'), 'z');
    assert_eq!(Rotator::new(-1).rot('A'), 'Z');
    assert_eq!(Rotator::new(3).rot('x'), 'a');
    assert_eq!(Rotator::new(-27).rot('b'), 'a');
    assert_eq!(Rotator::new(53).rot('b'), 'c');
}

#[test]
fn rot_takes_the_largest_and_smallest_shift() {
    // 2147483647 = 26 * 82595524 + 23, and -2147483648 = 26 * -82595525 + 2.
    assert_eq!(Rotator::new(i32::MAX).rot('a'), 'x');
    assert_eq!(Rotator::new(i32::MAX).rot('D'), 'A');
    assert_eq!(Rotator::new(i32::MIN).rot('a'), 'c');
    assert_eq!(Rotator::new(i32::MIN).rot('Z'), 'B');
    assert_eq!(Rotator::new(i32::MAX).rot_str("az AZ"), "xw XW");
    assert_eq!(Rotator::new(i32::MIN).rot_str("az AZ"), "cb CB");
}

#[test]
fn rot_passes_other_characters_through() {
    let others = "0123456789 \t\r\n!\"#$%&'()*+,-./:;<=>?@[\\]^_`{|}~éßΩж中🙂\u{0}\u{7f}";
    for n in [-1000, -53, -26, -13, -1, 0, 1, 13, 25, 26, 27, 1000, i32::MAX, i32::MIN] {
        let r = Rotator::new(n);
        for c in others.chars() {
            assert_eq!(r.rot(c), c);
        }
        assert_eq!(r.rot_str(others), others);
    }
}

#[test]
fn rot_keeps_case() {
    for n in -60..60 {
        let r = Rotator::new(n);
        for c in 'a'..='z' {
            assert!(r.rot(c).is_ascii_lowercase());
        }
        for c in 'A'..='Z' {
            assert!(r.rot(c).is_ascii_uppercase());
        }
    }
}

#[test]
fn rot_by_a_multiple_of_26_changes_nothing() {
    let text = "The quick brown fox, 42 times; jumps over the LAZY dog.\n";
    for n in [0, 26, -26, 52, -52, 260, -2600, 26 * 82595524, -26 * 82595524] {
        let r = Rotator::new(n);
        assert_eq!(r.rot_str(text), text);
        for c in text.chars() {
            assert_eq!(r.rot(c), c);
        }
    }
}

#[test]
fn rot_str_keeps_the_number_of_characters() {
    let texts =
        ["", "a", "Hello, World!", "ünïcödé stays: 中文 🙂", "line one\nline two\n"];
    for n in [-30, -1, 0, 5, 13, 100] {
        let r = Rotator::new(n);
        for t in texts {
            let out = r.rot_str(t);
            assert_eq!(out.chars().count(), t.chars().count());
            for (a, b) in t.chars().zip(out.chars()) {
                assert_eq!(r.rot(a), b);
            }
        }
    }
}

#[test]
fn rot_str_of_empty_text_is_empty() {
    assert_eq!(Rotator::new(13).rot_str(""), "");
}

#[test]
fn rot_str_hello_world() {
    assert_eq!(Rotator::new(13).rot_str("Hello, World!"), "Uryyb, Jbeyq!");
}

#[test]
fn rot_str_rot13_is_its_own_inverse() {
    let r = Rotator::new(13);
    assert_eq!(r.rot_str("Uryyb, Jbeyq!"), "Hello, World!");
    let text = "Once there was a way; to get back home.";
    assert_eq!(r.rot_str(&r.rot_str(text)), text);
}

#[test]
fn rot_str_shift_minus_one() {
    assert_eq!(Rotator::new(-1).rot_str("abc"), "zab");
}

#[test]
fn rot_str_shift_then_complement_restores_text() {
    let text = "Once there was a way; to get back home. ÄÖÜ 123";
    for n in -50..50 {
        let there = Rotator::new(n).rot_str(text);
        let back = Rotator::new(26 - n).rot_str(&there);
        assert_eq!(back, text);
    }
}

#[test]
fn rot_str_shifts_add_up() {
    let text = "Pack my box with five dozen liquor jugs.";
    for n in [-40, -3, 0, 7, 19] {
        for m in [-26, -5, 1, 13, 60] {
            let twice = Rotator::new(m).rot_str(&Rotator::new(n).rot_str(text));
            assert_eq!(twice, Rotator::new(n + m).rot_str(text));
        }
    }
}
