use noted_desktop::preview::{
    choose_target, execute_target, get_target_name, preview_command, preview_result,
    preview_title, qualified_name, Launch, PreviewEntry, PreviewError, PreviewRegistry,
    PromptAnswer, NO_TARGETS, SELECT_PROMPT,
};

fn registry() -> PreviewRegistry<u32> {
    let mut registry = PreviewRegistry::new();
    assert_eq!(registry.register("app::gui::root::RootView".to_string(), 1), Ok(()));
    assert_eq!(registry.register("app::gui::channels::ChannelsView".to_string(), 2), Ok(()));
    assert_eq!(registry.register("app::gui::content::ContentView".to_string(), 3), Ok(()));
    registry
}

#[test]
fn new_registry_is_empty() {
    let registry: PreviewRegistry<u32> = PreviewRegistry::new();
    assert!(registry.is_empty());
    assert_eq!(registry.len(), 0);
    assert_eq!(registry.names(), Vec::<String>::new());
    assert_eq!(registry.find("anything"), None);
}

#[test]
fn registry_keeps_the_order_of_registration() {
    let registry = registry();
    assert!(!registry.is_empty());
    assert_eq!(registry.len(), 3);
    assert_eq!(
        registry.names(),
        vec![
            "app::gui::root::RootView".to_string(),
            "app::gui::channels::ChannelsView".to_string(),
            "app::gui::content::ContentView".to_string(),
        ]
    );
    assert_eq!(registry.position("app::gui::root::RootView"), Some(0));
    assert_eq!(registry.position("app::gui::content::ContentView"), Some(2));
    assert_eq!(registry.position("ContentView"), None);
}

#[test]
fn each_name_finds_its_own_entry() {
    let registry = registry();
    assert_eq!(registry.find("app::gui::root::RootView"), Some(&1));
    assert_eq!(registry.find("app::gui::channels::ChannelsView"), Some(&2));
    assert_eq!(registry.find("app::gui::content::ContentView"), Some(&3));
}

#[test]
fn names_are_found_by_their_exact_text() {
    let registry = registry();
    assert_eq!(registry.find("app::gui::root::rootview"), None);
    assert_eq!(registry.find("app::gui::root::RootView "), None);
    assert_eq!(registry.find("RootView"), None);
    assert_eq!(registry.find(""), None);
}

#[test]
fn taken_name_is_not_registered_again() {
    let mut registry = registry();
    assert_eq!(
        registry.register("app::gui::root::RootView".to_string(), 9),
        Err(PreviewEntry { name: "app::gui::root::RootView".to_string(), entry: 9 })
    );
    assert_eq!(registry.len(), 3);
    assert_eq!(registry.find("app::gui::root::RootView"), Some(&1));
}

#[test]
fn same_type_name_in_two_modules_gives_two_entries() {
    let mut registry = PreviewRegistry::new();
    let first = qualified_name("app::gui::left", "Panel");
    let second = qualified_name("app::gui::right", "Panel");
    assert_eq!(first, "app::gui::left::Panel");
    assert_eq!(second, "app::gui::right::Panel");
    assert_eq!(registry.register(first, 'l'), Ok(()));
    assert_eq!(registry.register(second, 'r'), Ok(()));
    assert_eq!(registry.find("app::gui::left::Panel"), Some(&'l'));
    assert_eq!(registry.find("app::gui::right::Panel"), Some(&'r'));
}

#[test]
fn title_names_the_component() {
    assert_eq!(preview_title("app::gui::root::RootView"), "Previewing app::gui::root::RootView");
    assert_eq!(preview_title(""), "Previewing ");
}

#[test]
fn execute_target_finds_the_entry_or_names_what_is_missing() {
    let registry = registry();
    assert_eq!(execute_target(&registry, "app::gui::content::ContentView"), Ok(&3));
    assert_eq!(
        execute_target(&registry, "app::gui::Missing"),
        Err(PreviewError::TargetNotFound("app::gui::Missing".to_string()))
    );
}

#[test]
fn empty_registry_without_argument_has_no_targets() {
    let registry: PreviewRegistry<u32> = PreviewRegistry::new();
    assert_eq!(get_target_name(&registry, None), Launch::NoTargets);
    assert_eq!(NO_TARGETS, "No targets available.");
}

#[test]
fn empty_registry_with_argument_does_not_find_it() {
    let registry: PreviewRegistry<u32> = PreviewRegistry::new();
    assert_eq!(
        get_target_name(&registry, Some("app::gui::root::RootView".to_string())),
        Launch::Fail(PreviewError::TargetNotFound("app::gui::root::RootView".to_string()))
    );
}

#[test]
fn known_argument_is_run_without_asking() {
    let registry = registry();
    assert_eq!(
        get_target_name(&registry, Some("app::gui::channels::ChannelsView".to_string())),
        Launch::Run { target: "app::gui::channels::ChannelsView".to_string() }
    );
}

#[test]
fn unknown_argument_fails() {
    let registry = registry();
    assert_eq!(
        get_target_name(&registry, Some("nope".to_string())),
        Launch::Fail(PreviewError::TargetNotFound("nope".to_string()))
    );
}

#[test]
fn without_argument_the_user_chooses_among_all_names() {
    let registry = registry();
    assert_eq!(get_target_name(&registry, None), Launch::Ask { options: registry.names() });
    assert_eq!(SELECT_PROMPT, "Select a target to execute:");
}

#[test]
fn answer_of_the_user_decides() {
    let registry = registry();
    assert_eq!(
        choose_target(&registry, PromptAnswer::Selected("app::gui::root::RootView".to_string())),
        Launch::Run { target: "app::gui::root::RootView".to_string() }
    );
    assert_eq!(
        choose_target(&registry, PromptAnswer::Selected("gone".to_string())),
        Launch::Fail(PreviewError::TargetNotFound("gone".to_string()))
    );
    assert_eq!(choose_target(&registry, PromptAnswer::Canceled), Launch::Fail(PreviewError::Canceled));
    assert_eq!(
        choose_target(&registry, PromptAnswer::Failed("not a terminal".to_string())),
        Launch::Fail(PreviewError::Prompt("not a terminal".to_string()))
    );
}

#[test]
fn command_ends_with_the_target() {
    assert_eq!(
        preview_command("app::gui::root::RootView"),
        vec!["cargo", "run", "--bin", "preview", "--features", "preview", "--", "app::gui::root::RootView"]
    );
    assert_eq!(preview_command("x").last(), Some(&"x".to_string()));
}

#[test]
fn result_follows_the_exit_status() {
    assert_eq!(preview_result("app::Target", true), Ok(()));
    assert_eq!(
        preview_result("app::Target", false),
        Err(PreviewError::Failed("app::Target".to_string()))
    );
}

#[test]
fn errors_describe_themselves() {
    assert_eq!(
        PreviewError::TargetNotFound("app::X".to_string()).message(),
        "Target 'app::X' not found."
    );
    assert_eq!(PreviewError::Canceled.message(), "Operation canceled");
    assert_eq!(PreviewError::Prompt("no terminal".to_string()).message(), "no terminal");
    assert_eq!(PreviewError::Failed("app::X".to_string()).message(), "Failed to previewing app::X");
}
