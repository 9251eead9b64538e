use jihaz::composer::mode::VisualMode;
use jihaz::composer::register::{Register, RegisterData, RegisterKind};

#[test]
fn yanked_and_deleted_text_goes_to_the_unnamed_register() {
    let mut register = Register::default();
    register.add(
        RegisterKind::Yank,
        RegisterData { content: "abc".to_string(), mode: VisualMode::Linewise },
    );
    assert_eq!(register.unnamed.content, "abc");
    assert_eq!(register.unnamed.mode, VisualMode::Linewise);
    register.add(
        RegisterKind::Delete,
        RegisterData { content: "x".to_string(), mode: VisualMode::Normal },
    );
    assert_eq!(register.unnamed.content, "x");
    assert_eq!(register.unnamed.mode, VisualMode::Normal);
    register.add_yank(RegisterData { content: "y".to_string(), mode: VisualMode::Blockwise });
    assert_eq!(register.unnamed.content, "y");
    register.add_delete(RegisterData::default());
    assert_eq!(register.unnamed.content, "");
    assert_eq!(register.unnamed.mode, VisualMode::Normal);
}
