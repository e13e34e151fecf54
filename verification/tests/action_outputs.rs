use asset_core::action::definition::{
    ActionOutputContract, DirectoryActionDefinition, ResourceActionContentDelivery, ResourceActionDefinition,
    ResourceActionRequirements,
};
use asset_core::action::definition::ActionAccess;
use asset_core::action::orchestration::{
    directory_effects_step, DirectoryEffects, DirectoryEffectsRun, EffectAction, EffectEvent,
    resolved_content_delivery, should_load_declared_action_content, validate_directory_action_output,
    validate_output,
};
use asset_core::action::output::{
    ActionView, DirectoryActionEffect, DirectoryActionOutput, PluginDirectoryActionOutput,
    PluginResourceActionOutput, ResourceActionEffect, ResourceActionOutput,
};
use asset_core::action::policy::{PluginExecutionPolicy, ResourceActionPolicy};
use asset_core::domain::checksum::Checksum;
use asset_core::domain::ids::{DirectoryId, ResourceId};
use asset_core::domain::resource::ResourceContent;
use asset_core::error::{Conflict, CoreError, Invariant};

fn contract(views: &[&str], effects: &[&str]) -> ActionOutputContract {
    ActionOutputContract {
        views: views.iter().map(|v| v.to_string()).collect(),
        effects: effects.iter().map(|e| e.to_string()).collect(),
    }
}

fn view(kind: &str) -> Option<ActionView> {
    Some(ActionView { kind: kind.to_string(), media: None })
}

fn replace() -> ResourceActionEffect {
    ResourceActionEffect::ReplaceContent { data: "aGk=".to_string(), mime_type: None }
}

fn resource_output(id: ResourceId, action: &str, view: Option<ActionView>, effects: Vec<ResourceActionEffect>) -> ResourceActionOutput {
    ResourceActionOutput {
        resource_id: id,
        action: action.to_string(),
        output: PluginResourceActionOutput { view, effects },
    }
}

fn broken_invariant(r: Result<(), CoreError>) -> Invariant {
    match r {
        Err(CoreError::Invariant(i)) => i,
        other => panic!("expected an invariant error, got {other:?}"),
    }
}

#[test]
fn resource_action_outputs_must_keep_to_the_declared_contract() {
    let id = ResourceId(7);
    let action = ResourceActionDefinition::new_static("text.edit", "Edit")
        .with_output(contract(&["text"], &["replace_content", "delete"]));
    let check = |output: ResourceActionOutput| validate_output(id, "text.edit", &action, &output);

    assert!(check(resource_output(id, "text.edit", view("text"), vec![replace()])).is_ok());
    assert!(check(resource_output(id, "text.edit", None, vec![ResourceActionEffect::Delete])).is_ok());
    assert_eq!(
        broken_invariant(check(resource_output(ResourceId(8), "text.edit", view("text"), vec![]))),
        Invariant::ActionOutputForOtherInvocation
    );
    assert_eq!(
        broken_invariant(check(resource_output(id, "text.view", view("text"), vec![]))),
        Invariant::ActionOutputForOtherInvocation
    );
    assert_eq!(
        broken_invariant(check(resource_output(id, "text.edit", view("media"), vec![]))),
        Invariant::ActionUndeclaredView
    );
    assert_eq!(
        broken_invariant(check(resource_output(id, "text.edit", None, vec![]))),
        Invariant::ActionWithoutViewOrEffect
    );
    assert_eq!(
        broken_invariant(check(resource_output(id, "text.edit", None, vec![replace(), replace()]))),
        Invariant::ActionMultipleReplacements
    );
    assert_eq!(
        broken_invariant(check(resource_output(id, "text.edit", None, vec![replace(), ResourceActionEffect::Delete]))),
        Invariant::ActionDeleteCombined
    );

    let read_only = ResourceActionDefinition::new_static("text.edit", "Edit").with_output(contract(&["text"], &[]));
    assert_eq!(
        broken_invariant(validate_output(id, "text.edit", &read_only, &resource_output(id, "text.edit", None, vec![replace()]))),
        Invariant::ActionUndeclaredEffect
    );
}

fn directory_output(id: DirectoryId, action: &str, effects: Vec<DirectoryActionEffect>) -> DirectoryActionOutput {
    DirectoryActionOutput {
        directory_id: id,
        action: action.to_string(),
        output: PluginDirectoryActionOutput { view: None, effects },
    }
}

#[test]
fn directory_action_outputs_carry_at_most_one_declared_effect() {
    let id = DirectoryId(3);
    let definition = DirectoryActionDefinition::new_static("dir.tidy", "Tidy")
        .with_output(contract(&[], &["create_child", "delete"]));
    let child = || DirectoryActionEffect::CreateChild { name: "inbox".to_string(), kind: None };

    assert!(validate_directory_action_output(id, "dir.tidy", &definition, &directory_output(id, "dir.tidy", vec![child()])).is_ok());
    assert_eq!(
        broken_invariant(validate_directory_action_output(
            id,
            "dir.tidy",
            &definition,
            &directory_output(id, "dir.tidy", vec![child(), DirectoryActionEffect::Delete]),
        )),
        Invariant::ActionTooManyDirectoryEffects
    );
    assert_eq!(
        broken_invariant(validate_directory_action_output(
            id,
            "dir.tidy",
            &definition,
            &directory_output(id, "dir.tidy", vec![DirectoryActionEffect::CreateTree]),
        )),
        Invariant::ActionUndeclaredEffect
    );
    assert_eq!(
        broken_invariant(validate_directory_action_output(id, "dir.tidy", &definition, &directory_output(id, "dir.tidy", vec![]))),
        Invariant::ActionWithoutViewOrEffect
    );
    assert_eq!(
        broken_invariant(validate_directory_action_output(
            DirectoryId(4),
            "dir.tidy",
            &definition,
            &directory_output(id, "dir.tidy", vec![child()]),
        )),
        Invariant::ActionOutputForOtherInvocation
    );
}

#[test]
fn content_is_inlined_up_to_the_inline_limit() {
    let auto = ResourceActionDefinition::new_static("read", "Read").with_requirements(ResourceActionRequirements {
        content: true,
        content_delivery: ResourceActionContentDelivery::Auto,
    });
    let policy = ResourceActionPolicy::new(1024, 10).unwrap();
    assert_eq!(resolved_content_delivery(&auto, 10, &policy), Some(ResourceActionContentDelivery::Inline));
    assert_eq!(resolved_content_delivery(&auto, 11, &policy), Some(ResourceActionContentDelivery::Reference));
    let none = ResourceActionDefinition::new_static("info", "Info");
    assert_eq!(resolved_content_delivery(&none, 11, &policy), None);

    let plugin = PluginExecutionPolicy::new(1024, 16, 1 << 20, 1 << 20, 1 << 20, 4, 256, 30).unwrap();
    let small = ResourceContent::verified(16, Checksum::sha256(&"0".repeat(64)).unwrap(), None, None);
    let large = ResourceContent::verified(17, Checksum::sha256(&"0".repeat(64)).unwrap(), None, None);
    assert!(should_load_declared_action_content(&auto, &small, &plugin));
    assert!(!should_load_declared_action_content(&auto, &large, &plugin));
    assert!(!should_load_declared_action_content(&none, &small, &plugin));
}

fn effects_run(access: ActionAccess) -> DirectoryEffectsRun {
    DirectoryEffectsRun { directory_id: DirectoryId(9), expected_revision: 4, access, required_ancestor: None }
}

#[test]
fn directory_effects_create_children_then_update_then_delete() {
    let output = directory_output(
        DirectoryId(9),
        "dir.tidy",
        vec![
            DirectoryActionEffect::Delete,
            DirectoryActionEffect::CreateChild { name: "inbox".to_string(), kind: None },
            DirectoryActionEffect::Update { name: Some("tidy".to_string()), parent_id: None, kind: None },
            DirectoryActionEffect::CreateChild { name: "games".to_string(), kind: Some("azvs.games:directory".to_string()) },
        ],
    );
    let run = effects_run(ActionAccess::Write);
    let (state, action) = directory_effects_step(&run, &output, DirectoryEffects::Start, EffectEvent::Started);
    match &action {
        EffectAction::CreateChild { parent_id, name, kind, expected_parent_revision, .. } => {
            assert_eq!(*parent_id, DirectoryId(9));
            assert_eq!(name, "inbox");
            assert_eq!(kind.as_str(), "core:directory");
            assert_eq!(*expected_parent_revision, 4);
        }
        other => panic!("expected a child creation, got {other:?}"),
    }
    let (state, action) = directory_effects_step(&run, &output, state, EffectEvent::Completed);
    assert!(matches!(&action, EffectAction::CreateChild { name, kind, .. } if name == "games" && kind.as_str() == "azvs.games:directory"));
    let (state, action) = directory_effects_step(&run, &output, state, EffectEvent::Completed);
    match &action {
        EffectAction::UpdateDirectory(update) => {
            assert_eq!(update.id, DirectoryId(9));
            assert_eq!(update.command.expected_revision, 4);
            assert_eq!(update.command.name.as_deref(), Some("tidy"));
        }
        other => panic!("expected an update, got {other:?}"),
    }
    let (state, action) = directory_effects_step(&run, &output, state, EffectEvent::Completed);
    assert!(matches!(action, EffectAction::FindDirectory(id) if id == DirectoryId(9)));
    let (_, action) = directory_effects_step(&run, &output, state, EffectEvent::DirectoryFound(None));
    assert!(matches!(action, EffectAction::Finish(Err(CoreError::NotFound { .. }))));

    let (_, action) = directory_effects_step(&run, &output, DirectoryEffects::AwaitDeletion, EffectEvent::Deleted(false));
    assert!(matches!(action, EffectAction::Finish(Err(CoreError::Conflict(Conflict::DirectoryNotEmpty)))));

    let read = effects_run(ActionAccess::Read);
    let (_, action) = directory_effects_step(&read, &output, DirectoryEffects::Start, EffectEvent::Started);
    assert!(matches!(
        action,
        EffectAction::Finish(Err(CoreError::Invariant(Invariant::ActionEffectsWithoutWriteAccess)))
    ));
    let quiet = directory_output(DirectoryId(9), "dir.tidy", vec![]);
    let (_, action) = directory_effects_step(&read, &quiet, DirectoryEffects::Start, EffectEvent::Started);
    assert!(matches!(action, EffectAction::Finish(Ok(()))));
}
