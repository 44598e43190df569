use callm::error::CallmError;
use callm::templates::{MessageRole, Template, TemplateDummy, TemplateImpl, TemplateJinja};

#[test]
fn fallback_empty_messages_fail_with_a_template_error() {
    let template = TemplateDummy::new();
    let e = template.apply(&[]).unwrap_err();
    match e {
        CallmError::TemplateError(msg) => {
            assert_eq!(msg, "Error applying template (no messages passed in)")
        }
        other => panic!("expected a template error, got {:?}", other),
    }
}

#[test]
fn fallback_returns_exactly_the_first_message() {
    let template = TemplateDummy::new();
    let msgs = vec![
        (MessageRole::System, "ignored system".to_string()),
        (MessageRole::User, "also ignored".to_string()),
    ];
    assert_eq!(template.apply(msgs.as_slice()).unwrap(), "ignored system");

    let single = vec![(MessageRole::User, "only one".to_string())];
    assert_eq!(template.apply(single.as_slice()).unwrap(), "only one");
}

#[test]
fn special_tokens_can_be_set_after_construction() {
    let mut template = TemplateDummy::new();
    assert_eq!(template.get_bos_token(), None);
    assert_eq!(template.get_eos_token(), None);
    template.set_bos_token(Some("<s>".to_string()));
    template.set_eos_token(Some("</s>".to_string()));
    assert_eq!(template.get_bos_token(), Some("<s>"));
    assert_eq!(template.get_eos_token(), Some("</s>"));
    template.set_eos_token(None);
    assert_eq!(template.get_eos_token(), None);
    assert_eq!(template.get_bos_token(), Some("<s>"));
}

#[test]
fn template_enum_delegates_to_the_chosen_implementation() {
    let mut tpl = Template::Dummy(TemplateDummy::new());
    tpl.set_eos_token(Some("</s>".to_string()));
    assert_eq!(tpl.get_eos_token(), Some("</s>"));
    let msgs = vec![(MessageRole::User, "hello".to_string())];
    assert_eq!(tpl.apply(msgs.as_slice()).unwrap(), "hello");
    assert!(tpl.apply(&[]).is_err());
}

#[test]
fn jinja_renders_roles_by_their_lower_case_names() {
    assert_eq!(MessageRole::System.as_str(), "system");
    assert_eq!(MessageRole::User.as_str(), "user");
    assert_eq!(MessageRole::Assistant.as_str(), "assistant");

    let mut t = TemplateJinja::new("{% for m in messages %}{{ m.role }}:{{ m.content }};{% endfor %}");
    t.set_add_generation_prompt(false);
    let msgs = vec![
        (MessageRole::System, "s".to_string()),
        (MessageRole::User, "u".to_string()),
        (MessageRole::Assistant, "a".to_string()),
    ];
    assert_eq!(t.apply(msgs.as_slice()).unwrap(), "system:s;user:u;assistant:a;");
}

#[test]
fn jinja_render_failure_is_a_template_error() {
    let t = TemplateJinja::new("{{ raise_exception('boom') }}");
    let msgs = vec![(MessageRole::User, "x".to_string())];
    // the default environment has no raise_exception helper: the render fails
    assert!(matches!(
        t.apply(msgs.as_slice()).unwrap_err(),
        CallmError::TemplateError(_)
    ));
}

#[test]
fn unset_special_tokens_render_as_empty_text() {
    let t = TemplateJinja::new("[{{ bos_token }}|{{ eos_token }}]");
    let msgs = vec![(MessageRole::User, "x".to_string())];
    assert_eq!(t.apply(msgs.as_slice()).unwrap(), "[|]");
}

#[test]
fn error_messages_name_their_stage() {
    assert_eq!(CallmError::UnsupportedModel.message(), "Unsupported model");
    assert_eq!(
        CallmError::LoaderFail("x".to_string()).message(),
        "Loader failure: x"
    );
    assert_eq!(
        CallmError::TokenizerError { msg: "y".to_string() }.message(),
        "Tokenizer error: y"
    );
}
