use nvim_oxi::{Mode, OptionDefault, OptionScope};

#[test]
fn option_scope_predicates() {
    assert!(OptionScope::Buffer.is_buffer());
    assert!(!OptionScope::Buffer.is_global());
    assert!(OptionScope::Global.is_global());
    assert!(OptionScope::Window.is_window());
    assert!(!OptionScope::Window.is_buffer());
    assert_eq!(OptionScope::Buffer.tag(), "buf");
    assert_eq!(OptionScope::Global.tag(), "global");
    assert_eq!(OptionScope::Window.tag(), "win");
}

#[test]
fn option_default_accessors() {
    let b = OptionDefault::Boolean(true);
    let n = OptionDefault::Number(-8);
    let s = OptionDefault::String(String::from("utf-8"));
    assert_eq!(b.as_boolean(), Some(true));
    assert_eq!(b.as_number(), None);
    assert_eq!(n.as_number(), Some(-8));
    assert_eq!(n.as_string(), None);
    assert_eq!(s.as_string(), Some("utf-8"));
    assert_eq!(s.as_boolean(), None);
    assert!(b.is_boolean() && !b.is_number() && !b.is_string());
    assert!(n.is_number() && !n.is_string());
    assert!(s.is_string() && !s.is_boolean());
}

#[test]
fn mode_tags_and_predicates() {
    assert_eq!(Mode::CmdLine.tag(), "c");
    assert_eq!(Mode::InsertCmdLine.tag(), "!");
    assert_eq!(Mode::NormalVisualOperator.tag(), "");
    assert_eq!(Mode::VisualSelect.tag(), "v");
    assert_eq!(Mode::Visual.tag(), "x");
    assert!(Mode::Normal.is_normal());
    assert!(!Mode::Normal.is_visual());
    assert!(Mode::NormalVisualOperator.is_nvo());
    assert!(Mode::OperatorPending.is_op_pending());
    assert!(Mode::Terminal.is_terminal());
    assert!(Mode::Select.is_select());
    assert!(Mode::Langmap.is_langmap());
    assert!(Mode::Insert.is_insert());
    assert!(Mode::CmdLine.is_cmd_line());
    assert!(Mode::VisualSelect.is_visual_select());
}

#[test]
fn mode_to_host_string() {
    assert_eq!(Mode::Normal.to_nvim_string().as_bytes(), b"n");
    assert_eq!(Mode::InsertCmdLine.to_nvim_string().as_bytes(), b"!");
    assert!(Mode::NormalVisualOperator.to_nvim_string().is_empty());
}
