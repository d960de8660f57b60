use rustmail::parse::{parse_bool, parse_u16, parse_usize};

#[test]
fn u16_parsing_matches_rust() {
    let inputs = [
        "", "0", "25", "587", "65535", "65536", "70000", "+25", "++25", "-1", " 25", "25 ",
        "2a5", "0025", "+", "true", "18446744073709551616",
    ];
    for s in inputs {
        assert_eq!(parse_u16(s), s.parse::<u16>().ok(), "input {:?}", s);
    }
}

#[test]
fn usize_parsing_matches_rust() {
    let inputs = [
        "", "0", "4", "1024", "+8", "-8", "8.5", "many", "18446744073709551615",
        "18446744073709551616", "99999999999999999999999999",
    ];
    for s in inputs {
        assert_eq!(parse_usize(s), s.parse::<usize>().ok(), "input {:?}", s);
    }
}

#[test]
fn bool_parsing_matches_rust() {
    let inputs = ["true", "false", "True", "FALSE", "1", "0", "", " true", "truth"];
    for s in inputs {
        assert_eq!(parse_bool(s), s.parse::<bool>().ok(), "input {:?}", s);
    }
}
