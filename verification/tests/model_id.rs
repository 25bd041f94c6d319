use chat_router::chat::model_id::is_glm53_model_id;

#[test]
fn recognize_glm53_aliases() {
    for id in ["glm-5.3", "glm5.3", "GLM-5.3", "GLM_5.3", "org/glm5.3"] {
        assert!(is_glm53_model_id(id), "{id} should match");
    }
    for id in ["glm-5.2", "glm53", "glm-51", ""] {
        assert!(!is_glm53_model_id(id), "{id} must not match");
    }
}

#[test]
fn only_the_last_segment_names_the_model() {
    assert!(is_glm53_model_id("a/b/glm-5.3"));
    assert!(is_glm53_model_id("/glm-5.3"));
    assert!(!is_glm53_model_id("glm-5.3/"));
    assert!(!is_glm53_model_id("glm-5.3/other"));
    assert!(!is_glm53_model_id("org/my-glm-5.3"));
}

#[test]
fn separators_and_case_play_no_part() {
    assert!(is_glm53_model_id("gLm__5.3"));
    assert!(is_glm53_model_id("-g_l-m-5.3_"));
    assert!(!is_glm53_model_id("glm 5.3"));
    assert!(!is_glm53_model_id("glm-5.30"));
    assert!(!is_glm53_model_id("ɢlm-5.3"));
}

#[test]
fn spelling_is_ignored_in_a_whole_path() {
    for (model, other) in [
        ("Zai-Org/team/GLM_5.3", "zaiorg/TEAM/glm-5.3"),
        ("glm-5.3/Other-Model", "GLM5.3/othermodel"),
        ("glm5.3/", "GLM-5.3/"),
    ] {
        assert_eq!(is_glm53_model_id(model), is_glm53_model_id(other));
    }
    assert!(is_glm53_model_id("Zai-Org/team/GLM_5.3"));
    assert!(!is_glm53_model_id("glm-5.3/Other-Model"));
    assert!(!is_glm53_model_id("glm5.3/"));
}
