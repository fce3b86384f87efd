use coretools::cat::{CatArgs, CatCmd};

fn args() -> CatArgs {
    CatArgs {
        number: false,
        number_nonblank: false,
        show_tabs: false,
        show_ends: false,
        squeeze_blank: false,
        show_nonprinting: false,
        show_nonprinting_and_ends: false,
        show_nonprinting_and_tabs: false,
    }
}

fn lines(ls: &[&str]) -> Vec<String> {
    ls.iter().map(|l| l.to_string()).collect()
}

#[test]
fn plain_lines_pass_through() {
    let mut cmd = CatCmd::new(args());
    let out = cmd.run(&lines(&["one\n", "two\n"]));
    assert_eq!(out, "one\ntwo\n");
}

#[test]
fn is_emptyline_accepts_both_line_breaks() {
    assert!(CatCmd::is_emptyline(&"\n".to_string()));
    assert!(CatCmd::is_emptyline(&"\r\n".to_string()));
    assert!(!CatCmd::is_emptyline(&"".to_string()));
    assert!(!CatCmd::is_emptyline(&" \n".to_string()));
    assert!(!CatCmd::is_emptyline(&"x".to_string()));
}

#[test]
fn numbering_pads_to_six_columns() {
    let mut a = args();
    a.number = true;
    let mut cmd = CatCmd::new(a);
    let out = cmd.run(&lines(&["a\n", "b\n"]));
    assert_eq!(out, "     1\ta\n     2\tb\n");
}

#[test]
fn nonblank_numbering_skips_blank_lines_and_overrides_number() {
    let mut a = args();
    a.number = true;
    a.number_nonblank = true;
    let mut cmd = CatCmd::new(a);
    let out = cmd.run(&lines(&["a\n", "\n", "b\n"]));
    assert_eq!(out, "     1\ta\n\n     2\tb\n");
}

#[test]
fn squeeze_blank_drops_repeated_blank_lines() {
    let mut a = args();
    a.squeeze_blank = true;
    let mut cmd = CatCmd::new(a);
    let out = cmd.run(&lines(&["a\n", "\n", "\n", "\n", "b\n"]));
    assert_eq!(out, "a\n\nb\n");
}

#[test]
fn show_tabs_and_ends_mark_their_characters() {
    let mut a = args();
    a.show_tabs = true;
    a.show_ends = true;
    let mut cmd = CatCmd::new(a);
    let out = cmd.run(&lines(&["a\tb\n"]));
    assert_eq!(out, "a^Ib$\n");
}

#[test]
fn show_nonprinting_renders_control_characters() {
    let mut a = args();
    a.show_nonprinting = true;
    let mut cmd = CatCmd::new(a);
    let out = cmd.run(&lines(&["a\x01b\x1fc\n"]));
    assert_eq!(out, "a^Ab^_c\n");
    // tab and newline are never turned into caret form
    let out = cmd.run(&lines(&["a\tb\n"]));
    assert_eq!(out, "a\tb\n");
}

#[test]
fn combined_flags_switch_their_parts_on() {
    let mut a = args();
    a.show_nonprinting_and_ends = true;
    let mut cmd = CatCmd::new(a);
    cmd.check_args();
    assert!(cmd.arg.show_nonprinting);
    assert!(cmd.arg.show_ends);

    let mut a = args();
    a.show_nonprinting_and_tabs = true;
    let mut cmd = CatCmd::new(a);
    cmd.check_args();
    assert!(cmd.arg.show_nonprinting);
    assert!(cmd.arg.show_tabs);

    let mut a = args();
    a.number = true;
    a.number_nonblank = true;
    let mut cmd = CatCmd::new(a);
    cmd.check_args();
    assert!(!cmd.arg.number);
    assert!(cmd.arg.number_nonblank);
}
