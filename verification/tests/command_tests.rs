use rise_code::commands::awk::awk;
use rise_code::commands::grep::grep;

#[test]
fn awk_picks_the_numbered_word() {
    assert_eq!(awk(" a  b c ", 1), "a");
    assert_eq!(awk(" a  b c ", 3), "c");
}

#[test]
fn awk_out_of_range_gives_space() {
    assert_eq!(awk("a b", 3), " ");
    assert_eq!(awk("a b", -1), " ");
    assert_eq!(awk("", 1), " ");
}

#[test]
fn grep_numbers_the_first_match() {
    assert_eq!(grep("x NOR y NOR", "NOR"), 2);
    assert_eq!(grep("NOR", "NOR"), 1);
}

#[test]
fn grep_without_match_is_minus_one() {
    assert_eq!(grep("x NORMAL y", "NOR"), -1);
    assert_eq!(grep("", "NOR"), -1);
}

#[test]
fn grep_and_awk_agree() {
    let line = " NOR  src/lib.rs [+]  1 sel ";
    let k = grep(line, "[+]");
    assert_eq!(k, 3);
    assert_eq!(awk(line, k), "[+]");
}
