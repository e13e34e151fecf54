//! Decisions of action execution: how content is delivered to an action, which outputs are
//! accepted, and how the effects of an accepted output are applied.

use crate::action::definition::{
    contains_name, lists, ActionAccess, DirectoryActionDefinition, ResourceActionContentDelivery,
    ResourceActionDefinition, ResourceActionRequirements,
};
use crate::action::output::{
    directory_effect_kind, resource_effect_kind, DirectoryActionEffect, DirectoryActionOutput,
    ResourceActionEffect, ResourceActionOutput,
};
use crate::action::policy::{PluginExecutionPolicy, ResourceActionPolicy};
use crate::domain::ids::{uuid_parsed, DirectoryId, ResourceId};
use crate::directory::contract::UpdateDirectory;
use crate::directory::domain::{DirectoryKind, LocatedDirectory};
use crate::directory::workflow::DirectoryUpdateRun;
use crate::domain::checksum::{calculate_checksum, hex_text, sha256_digest};
use crate::domain::path::StorageKey;
use crate::domain::resource::{
    ContentVerificationStatus, Resource, ResourceContent, ResourceContentView, ResourceView,
};
use crate::error::{Configuration, Conflict, CoreError, Invariant, LimitSubject, Subject};
use crate::resource::query::LocatedResource;
use vstd::prelude::*;

verus! {

/// How content reaches an action that needs `size` bytes of it, given the inline limit: no
/// content for actions that need none; `Auto` becomes inline up to the limit and a reference
/// above it; an explicit choice is kept.
pub open spec fn delivery_for(
    requirements: ResourceActionRequirements,
    size: u64,
    inline_limit: u64,
) -> Option<ResourceActionContentDelivery> {
    if !requirements.content {
        None
    } else {
        match requirements.content_delivery {
            ResourceActionContentDelivery::Auto => if size <= inline_limit {
                Some(ResourceActionContentDelivery::Inline)
            } else {
                Some(ResourceActionContentDelivery::Reference)
            },
            d => Some(d),
        }
    }
}

fn delivery(requirements: ResourceActionRequirements, size: u64, inline_limit: u64) -> (r: Option<
    ResourceActionContentDelivery,
>)
    ensures
        r == delivery_for(requirements, size, inline_limit),
{
    if !requirements.content {
        return None;
    }
    match requirements.content_delivery {
        ResourceActionContentDelivery::Auto => {
            if size <= inline_limit {
                Some(ResourceActionContentDelivery::Inline)
            } else {
                Some(ResourceActionContentDelivery::Reference)
            }
        },
        d => Some(d),
    }
}

/// The delivery of `size` bytes of content to `action` under the action policy.
pub fn resolved_content_delivery(
    action: &ResourceActionDefinition,
    size: u64,
    policy: &ResourceActionPolicy,
) -> (r: Option<ResourceActionContentDelivery>)
    ensures
        r == delivery_for(action.spec_requirements(), size, policy@.1),
{
    delivery(action.requirements(), size, policy.max_inline_content_bytes())
}

/// Whether the host must load the content before invoking a declared action: only when it is
/// delivered inline under the plugin execution policy.
pub fn should_load_declared_action_content(
    action: &ResourceActionDefinition,
    content: &ResourceContent,
    policy: &PluginExecutionPolicy,
) -> (r: bool)
    ensures
        r == (delivery_for(
            action.spec_requirements(),
            content@.size,
            policy@.max_inline_content_bytes,
        ) == Some(ResourceActionContentDelivery::Inline)),
{
    match delivery(action.requirements(), content.size(), policy.max_inline_content_bytes()) {
        Some(ResourceActionContentDelivery::Inline) => true,
        _ => false,
    }
}

/// Every Resource effect's kind is declared.
pub open spec fn resource_effects_declared(effects: Seq<ResourceActionEffect>, declared: Seq<String>) -> bool {
    forall|i: int| 0 <= i < effects.len() ==> lists(declared, #[trigger] resource_effect_kind(effects[i]))
}

/// The number of `replace_content` effects.
pub open spec fn replacement_count(effects: Seq<ResourceActionEffect>) -> nat
    decreases effects.len(),
{
    if effects.len() == 0 {
        0
    } else {
        replacement_count(effects.drop_last()) + if effects.last() is ReplaceContent {
            1nat
        } else {
            0nat
        }
    }
}

/// Some effect deletes the Resource.
pub open spec fn has_delete(effects: Seq<ResourceActionEffect>) -> bool {
    exists|i: int| 0 <= i < effects.len() && #[trigger] effects[i] is Delete
}

/// The error, if any, of a Resource action output for the invocation of `action_id` on
/// `resource_id`, in the order the checks are made.
pub open spec fn resource_output_error(
    resource_id: ResourceId,
    action_id: Seq<char>,
    action: ResourceActionDefinition,
    output: ResourceActionOutput,
) -> Option<CoreError> {
    let effects = output.output.effects@;
    if output.resource_id != resource_id || output.action@ != action_id {
        Some(CoreError::Invariant(Invariant::ActionOutputForOtherInvocation))
    } else if (output.output.view matches Some(v) && !lists(action.spec_views(), v.kind@)) {
        Some(CoreError::Invariant(Invariant::ActionUndeclaredView))
    } else if output.output.view is None && effects.len() == 0 {
        Some(CoreError::Invariant(Invariant::ActionWithoutViewOrEffect))
    } else if !resource_effects_declared(effects, action.spec_effects()) {
        Some(CoreError::Invariant(Invariant::ActionUndeclaredEffect))
    } else if replacement_count(effects) > 1 {
        Some(CoreError::Invariant(Invariant::ActionMultipleReplacements))
    } else if has_delete(effects) && effects.len() > 1 {
        Some(CoreError::Invariant(Invariant::ActionDeleteCombined))
    } else {
        None
    }
}

/// Check a Resource action's output against the invocation and the action's declared contract:
/// it must answer this invocation, return only declared views and effects, return a view or an
/// effect, replace content at most once, and never combine a deletion with another effect.
#[verifier::loop_isolation(false)]
pub fn validate_output(
    resource_id: ResourceId,
    action_id: &str,
    action: &ResourceActionDefinition,
    output: &ResourceActionOutput,
) -> (r: Result<(), CoreError>)
    ensures
        match resource_output_error(resource_id, action_id@, *action, *output) {
            Some(e) => r == Err::<(), CoreError>(e),
            None => r is Ok,
        },
{
    if output.resource_id != resource_id || !crate::text::str_eq(output.action.as_str(), action_id) {
        return Err(CoreError::Invariant(Invariant::ActionOutputForOtherInvocation));
    }
    if let Some(view) = &output.output.view {
        if !contains_name(action.views(), view.kind.as_str()) {
            return Err(CoreError::Invariant(Invariant::ActionUndeclaredView));
        }
    }
    let effects = &output.output.effects;
    if output.output.view.is_none() && effects.len() == 0 {
        return Err(CoreError::Invariant(Invariant::ActionWithoutViewOrEffect));
    }
    let mut i: usize = 0;
    while i < effects.len()
        invariant
            i <= effects@.len(),
            forall|j: int|
                0 <= j < i ==> lists(action.spec_effects(), #[trigger] resource_effect_kind(effects@[j])),
        decreases effects@.len() - i,
    {
        if !contains_name(action.effects(), effects[i].kind()) {
            proof {
                assert(!lists(action.spec_effects(), resource_effect_kind(effects@[i as int])));
                assert(!resource_effects_declared(effects@, action.spec_effects()));
            }
            return Err(CoreError::Invariant(Invariant::ActionUndeclaredEffect));
        }
        i = i + 1;
    }
    let mut replacements: usize = 0;
    let mut deletes = false;
    let mut k: usize = 0;
    while k < effects.len()
        invariant
            k <= effects@.len(),
            replacements == replacement_count(effects@.take(k as int)),
            replacements <= k,
            deletes == exists|j: int| 0 <= j < k && #[trigger] effects@[j] is Delete,
        decreases effects@.len() - k,
    {
        proof {
            assert(effects@.take(k + 1).drop_last() =~= effects@.take(k as int));
        }
        match &effects[k] {
            ResourceActionEffect::ReplaceContent { .. } => {
                replacements = replacements + 1;
            },
            ResourceActionEffect::Delete => {
                deletes = true;
            },
        }
        k = k + 1;
    }
    proof {
        assert(effects@.take(effects@.len() as int) =~= effects@);
    }
    if replacements > 1 {
        return Err(CoreError::Invariant(Invariant::ActionMultipleReplacements));
    }
    if deletes && effects.len() > 1 {
        return Err(CoreError::Invariant(Invariant::ActionDeleteCombined));
    }
    Ok(())
}

/// Every Directory effect's kind is declared.
pub open spec fn directory_effects_declared(effects: Seq<DirectoryActionEffect>, declared: Seq<String>) -> bool {
    forall|i: int| 0 <= i < effects.len() ==> lists(declared, #[trigger] directory_effect_kind(effects[i]))
}

/// The error, if any, of a Directory action output for the invocation of `action_id` on
/// `directory_id`, in the order the checks are made.
pub open spec fn directory_output_error(
    directory_id: DirectoryId,
    action_id: Seq<char>,
    definition: DirectoryActionDefinition,
    output: DirectoryActionOutput,
) -> Option<CoreError> {
    let effects = output.output.effects@;
    if output.directory_id != directory_id || output.action@ != action_id {
        Some(CoreError::Invariant(Invariant::ActionOutputForOtherInvocation))
    } else if (output.output.view matches Some(v) && !lists(definition.spec_views(), v.kind@)) {
        Some(CoreError::Invariant(Invariant::ActionUndeclaredView))
    } else if output.output.view is None && effects.len() == 0 {
        Some(CoreError::Invariant(Invariant::ActionWithoutViewOrEffect))
    } else if !directory_effects_declared(effects, definition.spec_effects()) {
        Some(CoreError::Invariant(Invariant::ActionUndeclaredEffect))
    } else if effects.len() > 1 {
        Some(CoreError::Invariant(Invariant::ActionTooManyDirectoryEffects))
    } else {
        None
    }
}

/// Check a Directory action's output: it must answer this invocation, return only declared
/// views and effects, return a view or an effect, and return at most one effect.
#[verifier::loop_isolation(false)]
pub fn validate_directory_action_output(
    directory_id: DirectoryId,
    action_id: &str,
    definition: &DirectoryActionDefinition,
    output: &DirectoryActionOutput,
) -> (r: Result<(), CoreError>)
    ensures
        match directory_output_error(directory_id, action_id@, *definition, *output) {
            Some(e) => r == Err::<(), CoreError>(e),
            None => r is Ok,
        },
{
    if output.directory_id != directory_id || !crate::text::str_eq(output.action.as_str(), action_id) {
        return Err(CoreError::Invariant(Invariant::ActionOutputForOtherInvocation));
    }
    if let Some(view) = &output.output.view {
        if !contains_name(definition.views(), view.kind.as_str()) {
            return Err(CoreError::Invariant(Invariant::ActionUndeclaredView));
        }
    }
    let effects = &output.output.effects;
    if output.output.view.is_none() && effects.len() == 0 {
        return Err(CoreError::Invariant(Invariant::ActionWithoutViewOrEffect));
    }
    let mut i: usize = 0;
    while i < effects.len()
        invariant
            i <= effects@.len(),
            forall|j: int|
                0 <= j < i ==> lists(
                    definition.spec_effects(),
                    #[trigger] directory_effect_kind(effects@[j]),
                ),
        decreases effects@.len() - i,
    {
        if !contains_name(definition.effects(), effects[i].kind()) {
            proof {
                assert(!lists(definition.spec_effects(), directory_effect_kind(effects@[i as int])));
                assert(!directory_effects_declared(effects@, definition.spec_effects()));
            }
            return Err(CoreError::Invariant(Invariant::ActionUndeclaredEffect));
        }
        i = i + 1;
    }
    if effects.len() > 1 {
        return Err(CoreError::Invariant(Invariant::ActionTooManyDirectoryEffects));
    }
    Ok(())
}

/// The character of the standard base64 alphabet (RFC 4648, section 4) for a six-bit value:
/// `A`-`Z`, `a`-`z`, `0`-`9`, then `+` for 62 and `/` for 63.
pub open spec fn base64_digit(v: int) -> char {
    if v < 26 {
        (65 + v) as char
    } else if v < 52 {
        (71 + v) as char
    } else if v < 62 {
        (v - 4) as char
    } else if v == 62 {
        '+'
    } else {
        '/'
    }
}

/// The padded standard base64 text of a byte sequence: each three bytes become four digits of
/// six bits each, most significant first; a last group of one or two bytes becomes two or three
/// digits (the unused low bits zero) followed by `=` up to four characters.
pub open spec fn base64_standard_text(b: Seq<u8>) -> Seq<char>
    decreases b.len(),
{
    if b.len() == 0 {
        Seq::empty()
    } else {
        let b0 = b[0] as int;
        let b1 = if b.len() > 1 { b[1] as int } else { 0 };
        let b2 = if b.len() > 2 { b[2] as int } else { 0 };
        let first = base64_digit(b0 / 4);
        let second = base64_digit((b0 % 4) * 16 + b1 / 16);
        let third = base64_digit((b1 % 16) * 4 + b2 / 64);
        let fourth = base64_digit(b2 % 64);
        if b.len() == 1 {
            seq![first, second, '=', '=']
        } else if b.len() == 2 {
            seq![first, second, third, '=']
        } else {
            seq![first, second, third, fourth] + base64_standard_text(b.skip(3))
        }
    }
}

/// The bytes the standard base64 engine of the `base64` crate decodes from a text: the engine
/// requires canonical padding and zero trailing bits, so it accepts exactly the padded standard
/// base64 texts of byte sequences and gives back those bytes; any other text is refused.
pub closed spec fn base64_standard_decoded(input: Seq<char>) -> Option<Seq<u8>> {
    if exists|b: Seq<u8>| base64_standard_text(b) == input {
        Some(choose|b: Seq<u8>| base64_standard_text(b) == input)
    } else {
        None
    }
}

/// The six-bit value of a standard base64 digit.
spec fn base64_value(c: char) -> int {
    if 'A' <= c && c <= 'Z' {
        c as int - 65
    } else if 'a' <= c && c <= 'z' {
        c as int - 71
    } else if '0' <= c && c <= '9' {
        c as int + 4
    } else if c == '+' {
        62
    } else {
        63
    }
}

proof fn lemma_base64_digit_value(v: int)
    requires
        0 <= v < 64,
    ensures
        base64_value(base64_digit(v)) == v,
        base64_digit(v) != '=',
{
}

/// The bytes spelled by a padded base64 text, four digits at a time.
spec fn base64_bytes_of(t: Seq<char>) -> Seq<u8>
    decreases t.len(),
{
    if t.len() < 4 {
        Seq::empty()
    } else {
        let v0 = base64_value(t[0]);
        let v1 = base64_value(t[1]);
        let v2 = base64_value(t[2]);
        let v3 = base64_value(t[3]);
        let x0 = (v0 * 4 + v1 / 16) as u8;
        let x1 = ((v1 % 16) * 16 + v2 / 4) as u8;
        let x2 = ((v2 % 4) * 64 + v3) as u8;
        let group = if t[2] == '=' {
            seq![x0]
        } else if t[3] == '=' {
            seq![x0, x1]
        } else {
            seq![x0, x1, x2]
        };
        group + base64_bytes_of(t.skip(4))
    }
}

proof fn lemma_base64_bytes_of_text(b: Seq<u8>)
    ensures
        base64_bytes_of(base64_standard_text(b)) == b,
    decreases b.len(),
{
    if b.len() > 0 {
        let b0 = b[0] as int;
        let b1 = if b.len() > 1 { b[1] as int } else { 0 };
        let b2 = if b.len() > 2 { b[2] as int } else { 0 };
        let v0 = b0 / 4;
        let v1 = (b0 % 4) * 16 + b1 / 16;
        let v2 = (b1 % 16) * 4 + b2 / 64;
        let v3 = b2 % 64;
        lemma_base64_digit_value(v0);
        lemma_base64_digit_value(v1);
        lemma_base64_digit_value(v2);
        lemma_base64_digit_value(v3);
        assert(v0 * 4 + v1 / 16 == b0);
        assert((v1 % 16) * 16 + v2 / 4 == b1);
        assert((v2 % 4) * 64 + v3 == b2);
        let t = base64_standard_text(b);
        assert(t.len() >= 4);
        assert(t[0] == base64_digit(v0));
        assert(t[1] == base64_digit(v1));
        assert(base64_value(t[0]) == v0);
        assert(base64_value(t[1]) == v1);
        assert((v0 * 4 + v1 / 16) as u8 == b[0]);
        if b.len() >= 2 {
            assert(t[2] == base64_digit(v2));
            assert(base64_value(t[2]) == v2);
            assert(((v1 % 16) * 16 + v2 / 4) as u8 == b[1]);
        }
        if b.len() >= 3 {
            assert(t[3] == base64_digit(v3));
            assert(base64_value(t[3]) == v3);
            assert(((v2 % 4) * 64 + v3) as u8 == b[2]);
        }
        if b.len() >= 3 {
            let rest = base64_standard_text(b.skip(3));
            lemma_base64_bytes_of_text(b.skip(3));
            assert(t.skip(4) =~= rest);
            assert(t[2] != '=' && t[3] != '=');
            assert(base64_bytes_of(t) == seq![b[0], b[1], b[2]] + base64_bytes_of(t.skip(4)));
            assert(seq![b[0], b[1], b[2]] + b.skip(3) =~= b);
        } else if b.len() == 2 {
            assert(t.skip(4) =~= Seq::<char>::empty());
            assert(t[2] != '=' && t[3] == '=');
            assert(base64_bytes_of(t) == seq![b[0], b[1]] + base64_bytes_of(t.skip(4)));
            assert(seq![b[0], b[1]] =~= b);
        } else {
            assert(t.skip(4) =~= Seq::<char>::empty());
            assert(t[2] == '=');
            assert(base64_bytes_of(t) == seq![b[0]] + base64_bytes_of(t.skip(4)));
            assert(seq![b[0]] =~= b);
        }
    }
}

/// Standard base64 decoding undoes standard base64 encoding: decoding the padded standard
/// base64 text of any byte sequence gives back exactly those bytes.
pub proof fn lemma_base64_round_trip(b: Seq<u8>)
    ensures
        base64_standard_decoded(base64_standard_text(b)) == Some(b),
{
    let t = base64_standard_text(b);
    assert(exists|c: Seq<u8>| base64_standard_text(c) == t);
    let c = choose|c: Seq<u8>| base64_standard_text(c) == t;
    lemma_base64_bytes_of_text(b);
    lemma_base64_bytes_of_text(c);
}

/// The alphabet is the standard one: `+` and `/` are the digits 62 and 63, so `+/8=` decodes
/// to the bytes `fb ff`.
pub proof fn lemma_base64_standard_alphabet()
    ensures
        base64_standard_decoded(seq!['+', '/', '8', '=']) == Some(seq![0xfbu8, 0xff]),
        base64_digit(62) == '+' && base64_digit(63) == '/',
{
    let b = seq![0xfbu8, 0xff];
    lemma_base64_round_trip(b);
    assert(base64_standard_text(b) =~= seq!['+', '/', '8', '=']);
}

/// Standard base64 decoding accepts only canonical text: whatever it decodes is the padded
/// standard base64 text of the bytes it gives, so two different texts never decode to the same
/// bytes, and decoding gives nothing for a text that no byte sequence encodes to.
pub proof fn lemma_base64_decoded_is_canonical(t: Seq<char>)
    ensures
        match base64_standard_decoded(t) {
            Some(b) => base64_standard_text(b) == t,
            None => forall|b: Seq<u8>| base64_standard_text(b) != t,
        },
{
}

/// The view of optional bytes.
pub open spec fn opt_bytes(o: Option<Vec<u8>>) -> Option<Seq<u8>> {
    match o {
        Some(b) => Some(b@),
        None => None,
    }
}

/// `base64::Engine::decode` with `base64::engine::general_purpose::STANDARD`: decode padded
/// standard base64. The engine's configuration (padding required in canonical form, trailing
/// bits refused) makes it accept exactly the padded standard base64 text of some byte sequence
/// and give back those bytes, which is what `base64_standard_decoded` states.
#[verifier::external_body]
pub(crate) fn decode_base64(input: &str) -> (r: Option<Vec<u8>>)
    ensures
        opt_bytes(r) == base64_standard_decoded(input@),
{
    match base64::Engine::decode(&base64::engine::general_purpose::STANDARD, input.as_bytes()) {
        Ok(bytes) => Some(bytes),
        Err(_) => None,
    }
}

/// The outcome of the last performed effect.
#[derive(Debug)]
pub enum EffectEvent {
    /// No effect was applied yet.
    Started,
    /// The content replacement committed; this is the updated Resource.
    ResourceReplaced(Resource),
    /// The Directory index returned this Directory.
    DirectoryFound(Option<LocatedDirectory>),
    /// Whether the empty Directory was deleted.
    Deleted(bool),
    /// The effect was applied.
    Completed,
    /// Applying the effect failed.
    Failed(CoreError),
}

/// The next effect to apply.
#[derive(Debug)]
pub enum EffectAction {
    /// Replace the Resource's content by these bytes through a staged replacement.
    ReplaceBytes { resource: Resource, storage_key: StorageKey, content: ResourceContent, data: Vec<u8> },
    /// Permanently delete the located Resource at this revision.
    DeleteResource { located: LocatedResource, expected_revision: u64 },
    /// Create a child Directory, guarded by the parent's revision and the caller's scope.
    CreateChild {
        parent_id: DirectoryId,
        name: String,
        kind: DirectoryKind,
        expected_parent_revision: u64,
        required_ancestor: Option<DirectoryId>,
    },
    /// Run a Directory update.
    UpdateDirectory(DirectoryUpdateRun),
    /// Find a Directory.
    FindDirectory(DirectoryId),
    /// Delete a Directory if it is empty and still has the revision.
    DeleteDirectoryIfEmpty { id: DirectoryId, expected_revision: u64 },
    /// The effects are applied, or applying them failed.
    Finish(Result<(), CoreError>),
}

/// Phases of applying a Resource action's effects.
#[derive(Debug)]
pub enum ResourceEffects {
    Start,
    AwaitReplacement { next: usize },
    AwaitDeletion { next: usize, resource: Resource },
    Finished,
}

/// Safety of applying Resource effects: effects run only with write access; replaced content
/// is verified content of exactly the decoded bytes with their checksum, at the Resource's own
/// key; a deletion targets the located Resource.
pub open spec fn resource_effects_safe(
    located: LocatedResource,
    storage_key: StorageKey,
    access: ActionAccess,
    output: ResourceActionOutput,
    a: EffectAction,
) -> bool {
    match a {
        EffectAction::ReplaceBytes { resource, storage_key: k, content, data } => access
            == ActionAccess::Write && k@ == storage_key@ && content@.size == data@.len()
            && content@.checksum == Some(hex_text(sha256_digest(data@))) && content@.status
            == ContentVerificationStatus::Verified && resource@.id == located@.0.id && exists|i: int|
            0 <= i < output.output.effects@.len() && (#[trigger] output.output.effects@[i] matches ResourceActionEffect::ReplaceContent {
            data: text,
            ..
        } && base64_standard_decoded(text@) == Some(data@)),
        EffectAction::DeleteResource { located: l, .. } => access == ActionAccess::Write && l@
            == located@,
        EffectAction::Finish(_) => true,
        _ => false,
    }
}

/// The Resource a phase carries has the located Resource's identity.
pub open spec fn resource_effects_wf(located: LocatedResource, state: ResourceEffects) -> bool {
    match state {
        ResourceEffects::AwaitDeletion { resource, .. } => resource@.id == located@.0.id,
        _ => true,
    }
}

fn effect_end(e: CoreError) -> (r: (ResourceEffects, EffectAction))
    ensures
        r.0 is Finished && r.1 == EffectAction::Finish(Err(e)),
{
    (ResourceEffects::Finished, EffectAction::Finish(Err(e)))
}

/// What applying the effect at `index` of `effects` to `resource` (the Resource as earlier
/// effects left it) asks for: a content replacement needs existing content and valid base64, and
/// stages exactly the decoded bytes as verified content with their checksum, keeping the current
/// MIME type unless the effect names one; a deletion deletes the Resource at its current revision;
/// past the last effect the run ends.
pub open spec fn resource_effect_result(
    located: (ResourceView, (DirectoryId, Seq<char>)),
    storage_key: Seq<char>,
    effects: Seq<ResourceActionEffect>,
    index: int,
    resource: ResourceView,
    r: (ResourceEffects, EffectAction),
) -> bool {
    if index >= effects.len() {
        r.0 is Finished && r.1 == EffectAction::Finish(Ok(()))
    } else {
        match effects[index] {
            ResourceActionEffect::ReplaceContent { data, mime_type } => match resource.content {
                None => r.0 is Finished && r.1 == EffectAction::Finish(
                    Err(CoreError::Invariant(Invariant::ResourceMissingContent)),
                ),
                Some(current) => match base64_standard_decoded(data@) {
                    None => r.0 is Finished && r.1 == EffectAction::Finish(
                        Err(CoreError::Invariant(Invariant::ActionReturnedInvalidBase64)),
                    ),
                    Some(bytes) => (r.0 matches ResourceEffects::AwaitReplacement { next }
                        && next == index + 1) && (r.1 matches EffectAction::ReplaceBytes {
                        resource: res,
                        storage_key: k,
                        content,
                        data: d,
                    } && res@ == resource && k@ == storage_key && d@ == bytes && content@ == (
                    ResourceContentView {
                        size: bytes.len() as u64,
                        checksum: Some(hex_text(sha256_digest(bytes))),
                        mime_type: match mime_type {
                            Some(m) => Some(m@),
                            None => current.mime_type,
                        },
                        status: ContentVerificationStatus::Verified,
                        verification_error: None,
                        modified_at: None,
                    })),
                },
            },
            ResourceActionEffect::Delete => (r.0 matches ResourceEffects::AwaitDeletion {
                next,
                resource: res,
            } && next == index + 1 && res@ == resource) && (r.1 matches EffectAction::DeleteResource {
                located: l,
                expected_revision,
            } && l@ == located && expected_revision == resource.revision),
        }
    }
}

fn resource_effect_at(
    located: &LocatedResource,
    storage_key: &StorageKey,
    access: ActionAccess,
    output: &ResourceActionOutput,
    index: usize,
    resource: Resource,
) -> (r: (ResourceEffects, EffectAction))
    requires
        access == ActionAccess::Write,
        resource@.id == located@.0.id,
    ensures
        resource_effects_wf(*located, r.0),
        resource_effects_safe(*located, *storage_key, access, *output, r.1),
        resource_effect_result(
            located@,
            storage_key@,
            output.output.effects@,
            index as int,
            resource@,
            r,
        ),
{
    let effects = &output.output.effects;
    if index >= effects.len() {
        return (ResourceEffects::Finished, EffectAction::Finish(Ok(())));
    }
    match &effects[index] {
        ResourceActionEffect::ReplaceContent { data, mime_type } => {
            let current_mime = match resource.content() {
                Some(c) => match c.mime_type() {
                    Some(m) => Some(m.to_owned()),
                    None => None,
                },
                None => {
                    return effect_end(CoreError::Invariant(Invariant::ResourceMissingContent));
                },
            };
            let bytes = match decode_base64(data.as_str()) {
                Some(b) => b,
                None => {
                    return effect_end(CoreError::Invariant(Invariant::ActionReturnedInvalidBase64));
                },
            };
            let checksum = match calculate_checksum(bytes.as_slice()) {
                Ok(c) => c,
                Err(e) => return effect_end(e),
            };
            let mime = match mime_type {
                Some(m) => Some(m.clone()),
                None => current_mime,
            };
            let content = ResourceContent::verified(bytes.len() as u64, checksum, mime, None);
            proof {
                assert(output.output.effects@[index as int] matches ResourceActionEffect::ReplaceContent {
                    data: text,
                    ..
                } && base64_standard_decoded(text@) == Some(bytes@));
            }
            (
                ResourceEffects::AwaitReplacement { next: index + 1 },
                EffectAction::ReplaceBytes {
                    resource,
                    storage_key: storage_key.clone(),
                    content,
                    data: bytes,
                },
            )
        },
        ResourceActionEffect::Delete => {
            let expected_revision = resource.revision();
            (
                ResourceEffects::AwaitDeletion { next: index + 1, resource },
                EffectAction::DeleteResource { located: located.clone(), expected_revision },
            )
        },
    }
}

/// One step of applying a Resource action's effects, in order.
///
/// An output without effects changes nothing; effects need write access. A content replacement
/// needs existing content, valid base64 and keeps the current MIME type unless the effect names
/// one; its bytes are staged and committed at the Resource's key, and later effects see the
/// updated Resource. A deletion permanently deletes the Resource at its current revision.
pub fn resource_effects_step(
    located: &LocatedResource,
    storage_key: &StorageKey,
    access: ActionAccess,
    output: &ResourceActionOutput,
    state: ResourceEffects,
    event: EffectEvent,
) -> (r: (ResourceEffects, EffectAction))
    requires
        resource_effects_wf(*located, state),
    ensures
        resource_effects_wf(*located, r.0),
        resource_effects_safe(*located, *storage_key, access, *output, r.1),
        match (state, event) {
            (ResourceEffects::Start, _) => if output.output.effects@.len() == 0 {
                r.0 is Finished && r.1 == EffectAction::Finish(Ok(()))
            } else if access != ActionAccess::Write {
                r.0 is Finished && r.1 == EffectAction::Finish(
                    Err(CoreError::Invariant(Invariant::ActionEffectsWithoutWriteAccess)),
                )
            } else {
                resource_effect_result(located@, storage_key@, output.output.effects@, 0, located@.0, r)
            },
            (_, EffectEvent::Failed(e)) => r.0 is Finished && r.1 == EffectAction::Finish(Err(e)),
            (ResourceEffects::AwaitReplacement { next }, EffectEvent::ResourceReplaced(resource)) => if access
                == ActionAccess::Write && resource@.id == located@.0.id {
                resource_effect_result(
                    located@,
                    storage_key@,
                    output.output.effects@,
                    next as int,
                    resource@,
                    r,
                )
            } else {
                r.0 is Finished && r.1 == EffectAction::Finish(
                    Err(CoreError::Invariant(Invariant::UnexpectedRecoveryEvent)),
                )
            },
            (ResourceEffects::AwaitDeletion { next, resource }, EffectEvent::Completed) => if access
                == ActionAccess::Write {
                resource_effect_result(
                    located@,
                    storage_key@,
                    output.output.effects@,
                    next as int,
                    resource@,
                    r,
                )
            } else {
                r.0 is Finished && r.1 == EffectAction::Finish(
                    Err(CoreError::Invariant(Invariant::UnexpectedRecoveryEvent)),
                )
            },
            _ => r.0 is Finished && r.1 == EffectAction::Finish(
                Err(CoreError::Invariant(Invariant::UnexpectedRecoveryEvent)),
            ),
        },
{
    match state {
        ResourceEffects::Start => {
            if output.output.effects.len() == 0 {
                return (ResourceEffects::Finished, EffectAction::Finish(Ok(())));
            }
            if access != ActionAccess::Write {
                return effect_end(CoreError::Invariant(Invariant::ActionEffectsWithoutWriteAccess));
            }
            proof {
                use_type_invariant(located);
            }
            resource_effect_at(located, storage_key, access, output, 0, located.resource().clone())
        },
        ResourceEffects::AwaitReplacement { next } => match event {
            EffectEvent::ResourceReplaced(resource) => {
                if access != ActionAccess::Write || resource.id() != located.resource().id() {
                    return effect_end(CoreError::Invariant(Invariant::UnexpectedRecoveryEvent));
                }
                resource_effect_at(located, storage_key, access, output, next, resource)
            },
            EffectEvent::Failed(e) => effect_end(e),
            _ => effect_end(CoreError::Invariant(Invariant::UnexpectedRecoveryEvent)),
        },
        ResourceEffects::AwaitDeletion { next, resource } => match event {
            EffectEvent::Completed => {
                if access != ActionAccess::Write {
                    return effect_end(CoreError::Invariant(Invariant::UnexpectedRecoveryEvent));
                }
                resource_effect_at(located, storage_key, access, output, next, resource)
            },
            EffectEvent::Failed(e) => effect_end(e),
            _ => effect_end(CoreError::Invariant(Invariant::UnexpectedRecoveryEvent)),
        },
        ResourceEffects::Finished => match event {
            EffectEvent::Failed(e) => effect_end(e),
            _ => effect_end(CoreError::Invariant(Invariant::UnexpectedRecoveryEvent)),
        },
    }
}

/// Whether an output holds a `create_tree` effect.
pub open spec fn has_create_tree(effects: Seq<DirectoryActionEffect>) -> bool {
    exists|i: int| 0 <= i < effects.len() && #[trigger] effects[i] is CreateTree
}

/// Directory actions applied outside the workflow service may not create trees.
#[verifier::loop_isolation(false)]
pub fn reject_create_tree(output: &DirectoryActionOutput) -> (r: Result<(), CoreError>)
    ensures
        match r {
            Ok(_) => !has_create_tree(output.output.effects@),
            Err(e) => has_create_tree(output.output.effects@) && e == CoreError::Configuration(
                Configuration::CreateTreeRequiresWorkflowService,
            ),
        },
{
    let effects = &output.output.effects;
    let mut i: usize = 0;
    while i < effects.len()
        invariant
            i <= effects@.len(),
            forall|j: int| 0 <= j < i ==> !(#[trigger] effects@[j] is CreateTree),
        decreases effects@.len() - i,
    {
        match &effects[i] {
            DirectoryActionEffect::CreateTree => {
                proof {
                    assert(effects@[i as int] is CreateTree);
                }
                return Err(CoreError::Configuration(Configuration::CreateTreeRequiresWorkflowService));
            },
            _ => {},
        }
        i = i + 1;
    }
    Ok(())
}

/// The inputs of applying a Directory action's effects.
#[derive(Debug)]
pub struct DirectoryEffectsRun {
    pub directory_id: DirectoryId,
    pub expected_revision: u64,
    pub access: ActionAccess,
    pub required_ancestor: Option<DirectoryId>,
}

/// Phases of applying a Directory action's effects.
#[derive(Debug)]
pub enum DirectoryEffects {
    Start,
    AwaitChild { next: usize },
    AwaitUpdate,
    AwaitLookup,
    AwaitDeletion,
    Finished,
}

/// Safety of applying Directory effects: every write needs write access and is guarded by the
/// revision the action ran against; children are created under the action's Directory only,
/// and the Directory itself is updated or deleted only under that revision.
pub open spec fn directory_effects_safe(run: DirectoryEffectsRun, a: EffectAction) -> bool {
    match a {
        EffectAction::CreateChild { parent_id, expected_parent_revision, required_ancestor, .. } => run.access
            == ActionAccess::Write && parent_id == run.directory_id && expected_parent_revision
            == run.expected_revision && required_ancestor == run.required_ancestor,
        EffectAction::UpdateDirectory(u) => run.access == ActionAccess::Write && u.id
            == run.directory_id && u.command.expected_revision == run.expected_revision
            && u.required_ancestor == run.required_ancestor,
        EffectAction::DeleteDirectoryIfEmpty { expected_revision, .. } => run.access
            == ActionAccess::Write && expected_revision == run.expected_revision,
        EffectAction::FindDirectory(id) => id == run.directory_id,
        EffectAction::Finish(_) => true,
        _ => false,
    }
}

/// Once started, the effects are applied with write access.
pub open spec fn directory_effects_wf(run: DirectoryEffectsRun, state: DirectoryEffects) -> bool {
    match state {
        DirectoryEffects::Start => true,
        DirectoryEffects::Finished => true,
        _ => run.access == ActionAccess::Write,
    }
}

fn dir_end(e: CoreError) -> (r: (DirectoryEffects, EffectAction))
    ensures
        r.0 is Finished && r.1 == EffectAction::Finish(Err(e)),
{
    (DirectoryEffects::Finished, EffectAction::Finish(Err(e)))
}

fn parse_kind(kind: &Option<String>) -> (r: Result<DirectoryKind, CoreError>)
    ensures
        match kind {
            None => r matches Ok(k) && k@ == crate::directory::domain::default_directory_kind(),
            Some(t) => match r {
                Ok(k) => t@.len() > 0 && k@ == t@,
                Err(e) => t@.len() == 0 && e == (CoreError::Unsupported {
                    subject: Subject::Directory,
                }),
            },
        },
{
    match kind {
        Some(t) => DirectoryKind::try_new(t.as_str()),
        None => Ok(DirectoryKind::default()),
    }
}

/// The position of the first `create_child` effect at or after `from`, or the number of
/// effects when there is none.
pub open spec fn first_child_from(e: Seq<DirectoryActionEffect>, from: int) -> int
    decreases e.len() - from,
{
    if from >= e.len() {
        e.len() as int
    } else if e[from] is CreateChild {
        from
    } else {
        first_child_from(e, from + 1)
    }
}

/// The position of the first `update` effect at or after `from`, or the number of effects.
pub open spec fn first_update_from(e: Seq<DirectoryActionEffect>, from: int) -> int
    decreases e.len() - from,
{
    if from >= e.len() {
        e.len() as int
    } else if e[from] is Update {
        from
    } else {
        first_update_from(e, from + 1)
    }
}

/// The delete phase: look the Directory up when an effect deletes it, else finish.
pub open spec fn deletion_phase_result(run: DirectoryEffectsRun, e: Seq<DirectoryActionEffect>, r: (
    DirectoryEffects,
    EffectAction,
)) -> bool {
    if exists|i: int| 0 <= i < e.len() && #[trigger] e[i] is Delete {
        r.0 is AwaitLookup && r.1 == EffectAction::FindDirectory(run.directory_id)
    } else {
        r.0 is Finished && r.1 == EffectAction::Finish(Ok(()))
    }
}

/// The update phase: the first `update` effect becomes an update of the Directory under the
/// action's revision and the caller's scope (a parent that is no UUID, or an empty kind, is
/// refused), else the delete phase follows.
pub open spec fn update_phase_result(run: DirectoryEffectsRun, e: Seq<DirectoryActionEffect>, r: (
    DirectoryEffects,
    EffectAction,
)) -> bool {
    let i = first_update_from(e, 0);
    if i < e.len() {
        match e[i] {
            DirectoryActionEffect::Update { name, parent_id, kind } => if parent_id matches Some(p)
                && uuid_parsed(p@) is None {
                r.0 is Finished && r.1 == EffectAction::Finish(
                    Err(CoreError::Invariant(Invariant::ActionReturnedInvalidDirectoryId)),
                )
            } else if kind matches Some(k) && k@.len() == 0 {
                r.0 is Finished && r.1 == EffectAction::Finish(
                    Err(CoreError::Unsupported { subject: Subject::Directory }),
                )
            } else {
                r.0 is AwaitUpdate && (r.1 matches EffectAction::UpdateDirectory(u) && u.id
                    == run.directory_id && u.command.expected_revision == run.expected_revision
                    && crate::resource::query::opt_str(u.command.name) == crate::resource::query::opt_str(name)
                    && u.command.parent_id == (match parent_id {
                    Some(p) => Some(DirectoryId(uuid_parsed(p@)->0)),
                    None => None,
                }) && crate::directory::domain::opt_directory_kind(u.command.kind) == (match kind {
                    Some(k) => Some(k@),
                    None => None,
                }) && u.required_ancestor == run.required_ancestor)
            },
            _ => false,
        }
    } else {
        deletion_phase_result(run, e, r)
    }
}

/// The create phase from effect `from` on: the next `create_child` effect creates a child of
/// the action's Directory (of the default kind unless it names one; an empty kind is refused),
/// guarded by the action's revision and the caller's scope, else the update phase follows.
pub open spec fn child_phase_result(run: DirectoryEffectsRun, e: Seq<DirectoryActionEffect>, from: int, r: (
    DirectoryEffects,
    EffectAction,
)) -> bool {
    let i = first_child_from(e, from);
    if i < e.len() {
        match e[i] {
            DirectoryActionEffect::CreateChild { name, kind } => if kind matches Some(t) && t@.len() == 0 {
                r.0 is Finished && r.1 == EffectAction::Finish(
                    Err(CoreError::Unsupported { subject: Subject::Directory }),
                )
            } else {
                r.0 == DirectoryEffects::AwaitChild { next: (i + 1) as usize } && (r.1 matches EffectAction::CreateChild {
                    parent_id,
                    name: n,
                    kind: k,
                    expected_parent_revision,
                    required_ancestor,
                } && parent_id == run.directory_id && n@ == name@ && k@ == (match kind {
                    Some(t) => t@,
                    None => crate::directory::domain::default_directory_kind(),
                }) && expected_parent_revision == run.expected_revision && required_ancestor
                    == run.required_ancestor)
            },
            _ => false,
        }
    } else {
        update_phase_result(run, e, r)
    }
}

/// The delete phase: find the Directory if the output deletes it, else finish.
#[verifier::loop_isolation(false)]
fn deletion_phase(run: &DirectoryEffectsRun, output: &DirectoryActionOutput) -> (r: (
    DirectoryEffects,
    EffectAction,
))
    requires
        run.access == ActionAccess::Write,
    ensures
        directory_effects_wf(*run, r.0),
        directory_effects_safe(*run, r.1),
        if exists|i: int| 0 <= i < output.output.effects@.len() && #[trigger] output.output.effects@[i] is Delete {
            r.0 is AwaitLookup && r.1 == EffectAction::FindDirectory(run.directory_id)
        } else {
            r.0 is Finished && r.1 == EffectAction::Finish(Ok(()))
        },
{
    let effects = &output.output.effects;
    let mut i: usize = 0;
    while i < effects.len()
        invariant
            i <= effects@.len(),
            forall|j: int| 0 <= j < i ==> !(#[trigger] effects@[j] is Delete),
        decreases effects@.len() - i,
    {
        match &effects[i] {
            DirectoryActionEffect::Delete => {
                proof {
                    assert(effects@[i as int] is Delete);
                }
                return (DirectoryEffects::AwaitLookup, EffectAction::FindDirectory(run.directory_id));
            },
            _ => {},
        }
        i = i + 1;
    }
    (DirectoryEffects::Finished, EffectAction::Finish(Ok(())))
}

/// The update phase: run the first `update` effect as a Directory update guarded by the
/// action's revision and scope, else continue with the delete phase.
#[verifier::loop_isolation(false)]
fn update_phase(run: &DirectoryEffectsRun, output: &DirectoryActionOutput) -> (r: (
    DirectoryEffects,
    EffectAction,
))
    requires
        run.access == ActionAccess::Write,
    ensures
        directory_effects_wf(*run, r.0),
        directory_effects_safe(*run, r.1),
        update_phase_result(*run, output.output.effects@, r),
{
    let effects = &output.output.effects;
    let mut i: usize = 0;
    while i < effects.len()
        invariant
            i <= effects@.len(),
            run.access == ActionAccess::Write,
            first_update_from(effects@, 0) == first_update_from(effects@, i as int),
        decreases effects@.len() - i,
    {
        match &effects[i] {
            DirectoryActionEffect::Update { name, parent_id, kind } => {
                let mut command = UpdateDirectory::new(run.expected_revision);
                if let Some(n) = name {
                    command = command.with_name(n.as_str());
                }
                if let Some(p) = parent_id {
                    match DirectoryId::parse(p.as_str()) {
                        Some(parent) => {
                            command = command.with_parent_id(parent);
                        },
                        None => {
                            return dir_end(
                                CoreError::Invariant(Invariant::ActionReturnedInvalidDirectoryId),
                            );
                        },
                    }
                }
                if let Some(k) = kind {
                    match DirectoryKind::try_new(k.as_str()) {
                        Ok(kind) => {
                            command = command.with_kind(kind);
                        },
                        Err(e) => return dir_end(e),
                    }
                }
                return (
                    DirectoryEffects::AwaitUpdate,
                    EffectAction::UpdateDirectory(
                        DirectoryUpdateRun {
                            id: run.directory_id,
                            command,
                            required_ancestor: run.required_ancestor,
                        },
                    ),
                );
            },
            _ => {},
        }
        i = i + 1;
    }
    deletion_phase(run, output)
}

/// The create phase from effect `from` on: create the next `create_child` child, else continue
/// with the update phase.
#[verifier::loop_isolation(false)]
fn child_phase(run: &DirectoryEffectsRun, output: &DirectoryActionOutput, from: usize) -> (r: (
    DirectoryEffects,
    EffectAction,
))
    requires
        run.access == ActionAccess::Write,
    ensures
        directory_effects_wf(*run, r.0),
        directory_effects_safe(*run, r.1),
        child_phase_result(*run, output.output.effects@, from as int, r),
{
    let effects = &output.output.effects;
    let mut i: usize = from;
    while i < effects.len()
        invariant
            run.access == ActionAccess::Write,
            from <= i,
            i <= effects@.len() || i == from,
            first_child_from(effects@, from as int) == first_child_from(effects@, i as int),
        decreases effects@.len() - i,
    {
        match &effects[i] {
            DirectoryActionEffect::CreateChild { name, kind } => {
                let kind = match parse_kind(kind) {
                    Ok(k) => k,
                    Err(e) => return dir_end(e),
                };
                return (
                    DirectoryEffects::AwaitChild { next: i + 1 },
                    EffectAction::CreateChild {
                        parent_id: run.directory_id,
                        name: name.clone(),
                        kind,
                        expected_parent_revision: run.expected_revision,
                        required_ancestor: run.required_ancestor,
                    },
                );
            },
            _ => {},
        }
        i = i + 1;
    }
    update_phase(run, output)
}

/// One step of applying a Directory action's effects.
///
/// An output without effects changes nothing; effects need write access. First every
/// `create_child` creates a child (the default kind unless one is named), guarded by the revision
/// the action ran against and the caller's scope; then the first `update` updates the Directory
/// under that revision; then a `delete` deletes the Directory if it is empty, and reports a
/// conflict if it is not.
pub fn directory_effects_step(
    run: &DirectoryEffectsRun,
    output: &DirectoryActionOutput,
    state: DirectoryEffects,
    event: EffectEvent,
) -> (r: (DirectoryEffects, EffectAction))
    requires
        directory_effects_wf(*run, state),
    ensures
        directory_effects_wf(*run, r.0),
        directory_effects_safe(*run, r.1),
        match (state, event) {
            (_, EffectEvent::Failed(e)) => r.0 is Finished && r.1 == EffectAction::Finish(Err(e)),
            (DirectoryEffects::Start, _) => if output.output.effects@.len() == 0 {
                r.0 is Finished && r.1 == EffectAction::Finish(Ok(()))
            } else if run.access != ActionAccess::Write {
                r.0 is Finished && r.1 == EffectAction::Finish(
                    Err(CoreError::Invariant(Invariant::ActionEffectsWithoutWriteAccess)),
                )
            } else {
                child_phase_result(*run, output.output.effects@, 0, r)
            },
            (DirectoryEffects::AwaitChild { next }, EffectEvent::Completed) => child_phase_result(
                *run,
                output.output.effects@,
                next as int,
                r,
            ),
            (DirectoryEffects::AwaitUpdate, EffectEvent::Completed) => deletion_phase_result(
                *run,
                output.output.effects@,
                r,
            ),
            (DirectoryEffects::AwaitLookup, EffectEvent::DirectoryFound(found)) => match found {
                None => r.0 is Finished && r.1 == EffectAction::Finish(
                    Err(CoreError::NotFound { subject: Subject::Directory, id: run.directory_id.0 }),
                ),
                Some(d) => r.0 is AwaitDeletion && r.1 == EffectAction::DeleteDirectoryIfEmpty {
                    id: d@.0.id,
                    expected_revision: run.expected_revision,
                },
            },
            (DirectoryEffects::AwaitDeletion, EffectEvent::Deleted(deleted)) => r.0 is Finished
                && r.1 == EffectAction::Finish(
                if deleted {
                    Ok(())
                } else {
                    Err(CoreError::Conflict(Conflict::DirectoryNotEmpty))
                },
            ),
            _ => r.0 is Finished && r.1 == EffectAction::Finish(
                Err(CoreError::Invariant(Invariant::UnexpectedRecoveryEvent)),
            ),
        },
{
    if let EffectEvent::Failed(e) = event {
        return dir_end(e);
    }
    match state {
        DirectoryEffects::Start => {
            if output.output.effects.len() == 0 {
                return (DirectoryEffects::Finished, EffectAction::Finish(Ok(())));
            }
            if run.access != ActionAccess::Write {
                return dir_end(CoreError::Invariant(Invariant::ActionEffectsWithoutWriteAccess));
            }
            child_phase(run, output, 0)
        },
        DirectoryEffects::AwaitChild { next } => match event {
            EffectEvent::Completed => child_phase(run, output, next),
            _ => dir_end(CoreError::Invariant(Invariant::UnexpectedRecoveryEvent)),
        },
        DirectoryEffects::AwaitUpdate => match event {
            EffectEvent::Completed => deletion_phase(run, output),
            _ => dir_end(CoreError::Invariant(Invariant::UnexpectedRecoveryEvent)),
        },
        DirectoryEffects::AwaitLookup => match event {
            EffectEvent::DirectoryFound(found) => match found {
                None => dir_end(CoreError::NotFound { subject: Subject::Directory, id: run.directory_id.0 }),
                Some(d) => {
                    (
                        DirectoryEffects::AwaitDeletion,
                        EffectAction::DeleteDirectoryIfEmpty {
                            id: d.id(),
                            expected_revision: run.expected_revision,
                        },
                    )
                },
            },
            _ => dir_end(CoreError::Invariant(Invariant::UnexpectedRecoveryEvent)),
        },
        DirectoryEffects::AwaitDeletion => match event {
            EffectEvent::Deleted(deleted) => {
                if deleted {
                    (DirectoryEffects::Finished, EffectAction::Finish(Ok(())))
                } else {
                    dir_end(CoreError::Conflict(Conflict::DirectoryNotEmpty))
                }
            },
            _ => dir_end(CoreError::Invariant(Invariant::UnexpectedRecoveryEvent)),
        },
        DirectoryEffects::Finished => dir_end(CoreError::Invariant(Invariant::UnexpectedRecoveryEvent)),
    }
}

/// A candidate action is offered on a Resource when the Resource has content or the action
/// needs none, the action matches one of the kinds of the Resource's lineage (`matched`), and a
/// text editing action only when the content is small enough to edit.
pub open spec fn offered(
    action: ResourceActionDefinition,
    matched: bool,
    content: Option<crate::domain::resource::ResourceContentView>,
    max_text_bytes: u64,
) -> bool {
    &&& content is Some || !action.spec_requirements().content
    &&& matched
    &&& action.spec_provides() == Some(crate::resource::content::text_edit()) ==> (content matches Some(
        c,
    ) && c.size <= max_text_bytes)
}

/// The candidates offered on a Resource, in candidate order.
pub open spec fn offered_actions(
    candidates: Seq<ResourceActionDefinition>,
    matched: Seq<bool>,
    content: Option<crate::domain::resource::ResourceContentView>,
    max_text_bytes: u64,
) -> Seq<ResourceActionDefinition>
    decreases candidates.len(),
{
    if candidates.len() == 0 || matched.len() != candidates.len() {
        Seq::empty()
    } else {
        let rest = offered_actions(candidates.drop_last(), matched.drop_last(), content, max_text_bytes);
        if offered(candidates.last(), matched.last(), content, max_text_bytes) {
            rest.push(candidates.last())
        } else {
            rest
        }
    }
}

/// The actions available on a Resource among the candidates registered for its kind lineage;
/// `matched[i]` tells whether candidate `i` matches one of the lineage's kinds for the
/// Resource's MIME type and name.
pub fn applicable_resource_actions(
    candidates: Vec<ResourceActionDefinition>,
    matched: &Vec<bool>,
    content: Option<&ResourceContent>,
    max_text_bytes: u64,
) -> (r: Vec<ResourceActionDefinition>)
    requires
        matched@.len() == candidates@.len(),
    ensures
        r@ == offered_actions(
            candidates@,
            matched@,
            crate::resource::reconciliation::opt_ref_content(content),
            max_text_bytes,
        ),
{
    let ghost cv = crate::resource::reconciliation::opt_ref_content(content);
    let ghost all = candidates@;
    let mut rest = candidates;
    let mut out: Vec<ResourceActionDefinition> = Vec::new();
    let mut i: usize = 0;
    let total = rest.len();
    proof {
        assert(all.take(0) =~= Seq::<ResourceActionDefinition>::empty());
        assert(matched@.take(0) =~= Seq::<bool>::empty());
        assert(rest@ =~= all.skip(0));
    }
    while i < total
        invariant
            total == all.len(),
            matched@.len() == all.len(),
            i <= total,
            rest@ == all.skip(i as int),
            cv == crate::resource::reconciliation::opt_ref_content(content),
            out@ == offered_actions(all.take(i as int), matched@.take(i as int), cv, max_text_bytes),
        decreases total - i,
    {
        let action = rest.remove(0);
        proof {
            assert(all.take(i + 1).drop_last() =~= all.take(i as int));
            assert(matched@.take(i + 1).drop_last() =~= matched@.take(i as int));
            assert(all.take(i + 1).last() == action);
            assert(rest@ =~= all.skip(i + 1));
        }
        let needs_content = action.requirements().content;
        let is_edit = match action.provides() {
            Some(p) => crate::text::str_eq(p, "text_edit"),
            None => false,
        };
        proof {
            reveal_strlit("text_edit");
            assert("text_edit"@ =~= crate::resource::content::text_edit());
        }
        let small_enough = match content {
            Some(c) => c.size() <= max_text_bytes,
            None => false,
        };
        let offer = (content.is_some() || !needs_content) && matched[i] && (!is_edit || small_enough);
        proof {
            assert(matched@.take(i + 1).last() == matched@[i as int]);
            assert(offer == offered(action, matched@[i as int], cv, max_text_bytes));
        }
        if offer {
            out.push(action);
        }
        i = i + 1;
    }
    proof {
        assert(all.take(i as int) =~= all);
        assert(matched@.take(i as int) =~= matched@);
    }
    out
}

/// Whether executing `action` on content of `size` bytes needs the bytes loaded for inline
/// delivery under the Resource action policy `(max_content_bytes, max_inline_content_bytes)`;
/// inline content above the content limit is refused.
pub open spec fn inline_content_load(
    action: ResourceActionDefinition,
    size: Option<u64>,
    policy: (u64, u64),
) -> Result<bool, CoreError> {
    match size {
        None => Ok(false),
        Some(n) => if delivery_for(action.spec_requirements(), n, policy.1) != Some(
            ResourceActionContentDelivery::Inline,
        ) {
            Ok(false)
        } else if n > policy.0 {
            Err(CoreError::LimitExceeded { subject: LimitSubject::PluginActionContent, limit: policy.0, actual: n })
        } else {
            Ok(true)
        },
    }
}

/// Decide whether the content of the Resource must be loaded before `action` runs.
pub fn action_content_load(
    action: &ResourceActionDefinition,
    content: Option<&ResourceContent>,
    policy: &ResourceActionPolicy,
) -> (r: Result<bool, CoreError>)
    ensures
        r == inline_content_load(
            *action,
            match content {
                Some(c) => Some(c@.size),
                None => None,
            },
            policy@,
        ),
{
    let content = match content {
        Some(c) => c,
        None => return Ok(false),
    };
    match delivery(action.requirements(), content.size(), policy.max_inline_content_bytes()) {
        Some(ResourceActionContentDelivery::Inline) => {},
        _ => return Ok(false),
    }
    if content.size() > policy.max_content_bytes() {
        return Err(
            CoreError::LimitExceeded {
                subject: LimitSubject::PluginActionContent,
                limit: policy.max_content_bytes(),
                actual: content.size(),
            },
        );
    }
    Ok(true)
}

/// The first of `actions` with identity `id`; an action the Resource does not offer is
/// unsupported.
pub fn find_resource_action(actions: Vec<ResourceActionDefinition>, id: &str) -> (r: Result<
    ResourceActionDefinition,
    CoreError,
>)
    ensures
        match r {
            Ok(a) => exists|i: int|
                0 <= i < actions@.len() && actions@[i] == a && a.spec_id() == id@ && forall|j: int|
                    0 <= j < i ==> (#[trigger] actions@[j]).spec_id() != id@,
            Err(e) => (forall|i: int| 0 <= i < actions@.len() ==> (#[trigger] actions@[i]).spec_id() != id@)
                && e == (CoreError::Unsupported { subject: Subject::ResourceAction }),
        },
{
    let ghost all = actions@;
    let mut rest = actions;
    let mut i: usize = 0;
    let total = rest.len();
    proof {
        assert(rest@ =~= all.skip(0));
    }
    while i < total
        invariant
            total == all.len(),
            i <= total,
            rest@ == all.skip(i as int),
            all == actions@,
            forall|j: int| 0 <= j < i ==> (#[trigger] all[j]).spec_id() != id@,
        decreases total - i,
    {
        let action = rest.remove(0);
        proof {
            assert(all[i as int] == action);
            assert(rest@ =~= all.skip(i + 1));
        }
        if crate::text::str_eq(action.id(), id) {
            return Ok(action);
        }
        i = i + 1;
    }
    Err(CoreError::Unsupported { subject: Subject::ResourceAction })
}

/// An action may not delete the root Directory: on the root, actions declaring a `delete`
/// effect are not offered.
pub open spec fn directory_action_offered(action: DirectoryActionDefinition, is_root: bool) -> bool {
    !(is_root && lists(action.spec_effects(), seq!['d', 'e', 'l', 'e', 't', 'e']))
}

/// The registered actions of a Directory's kind that are offered on that Directory, in order.
pub fn offered_directory_actions(actions: Vec<DirectoryActionDefinition>, is_root: bool) -> (r: Vec<
    DirectoryActionDefinition,
>)
    ensures
        r@ == actions@.filter(|a: DirectoryActionDefinition| directory_action_offered(a, is_root)),
{
    let ghost all = actions@;
    let ghost pred = |a: DirectoryActionDefinition| directory_action_offered(a, is_root);
    let mut rest = actions;
    let mut out: Vec<DirectoryActionDefinition> = Vec::new();
    let mut i: usize = 0;
    let total = rest.len();
    proof {
        reveal(Seq::filter);
        assert(all.take(0) =~= Seq::<DirectoryActionDefinition>::empty());
        assert(rest@ =~= all.skip(0));
    }
    while i < total
        invariant
            total == all.len(),
            i <= total,
            rest@ == all.skip(i as int),
            pred == (|a: DirectoryActionDefinition| directory_action_offered(a, is_root)),
            out@ == all.take(i as int).filter(pred),
        decreases total - i,
    {
        let action = rest.remove(0);
        proof {
            assert(all.take(i + 1) =~= all.take(i as int).push(action));
            all.take(i as int).lemma_filter_push(action, pred);
            assert(rest@ =~= all.skip(i + 1));
        }
        let deletes = contains_name(action.effects(), "delete");
        proof {
            reveal_strlit("delete");
            assert("delete"@ =~= seq!['d', 'e', 'l', 'e', 't', 'e']);
        }
        if !(is_root && deletes) {
            out.push(action);
        }
        i = i + 1;
    }
    proof {
        assert(all.take(i as int) =~= all);
    }
    out
}

/// The first of `actions` with identity `id`; an action the Directory does not offer is
/// unsupported.
pub fn find_directory_action(actions: Vec<DirectoryActionDefinition>, id: &str) -> (r: Result<
    DirectoryActionDefinition,
    CoreError,
>)
    ensures
        match r {
            Ok(a) => exists|i: int|
                0 <= i < actions@.len() && actions@[i] == a && a.spec_id() == id@ && forall|j: int|
                    0 <= j < i ==> (#[trigger] actions@[j]).spec_id() != id@,
            Err(e) => (forall|i: int| 0 <= i < actions@.len() ==> (#[trigger] actions@[i]).spec_id() != id@)
                && e == (CoreError::Unsupported { subject: Subject::DirectoryAction }),
        },
{
    let ghost all = actions@;
    let mut rest = actions;
    let mut i: usize = 0;
    let total = rest.len();
    proof {
        assert(rest@ =~= all.skip(0));
    }
    while i < total
        invariant
            total == all.len(),
            i <= total,
            rest@ == all.skip(i as int),
            all == actions@,
            forall|j: int| 0 <= j < i ==> (#[trigger] all[j]).spec_id() != id@,
        decreases total - i,
    {
        let action = rest.remove(0);
        proof {
            assert(all[i as int] == action);
            assert(rest@ =~= all.skip(i + 1));
        }
        if crate::text::str_eq(action.id(), id) {
            return Ok(action);
        }
        i = i + 1;
    }
    Err(CoreError::Unsupported { subject: Subject::DirectoryAction })
}

/// The actions a Directory offers: those of its kind's lineage, without the ones that delete
/// when the Directory is the root.
pub fn describe_directory_actions(kind_actions: Vec<DirectoryActionDefinition>, is_root: bool) -> (r:
    crate::directory::contract::DirectoryActions)
    ensures
        r.actions() == kind_actions@.filter(|a: DirectoryActionDefinition| directory_action_offered(a, is_root)),
{
    crate::directory::contract::DirectoryActions::new(offered_directory_actions(kind_actions, is_root))
}

/// Resolve the action `id` among those a Directory offers: the first offered action with that
/// identifier, or `Unsupported` when none is offered.
pub fn resolve_directory_action(kind_actions: Vec<DirectoryActionDefinition>, is_root: bool, id: &str) -> (r:
    Result<DirectoryActionDefinition, CoreError>)
    ensures
        ({
            let offered = kind_actions@.filter(|a: DirectoryActionDefinition| directory_action_offered(a, is_root));
            match r {
                Ok(a) => exists|i: int|
                    0 <= i < offered.len() && offered[i] == a && a.spec_id() == id@ && forall|j: int|
                        0 <= j < i ==> (#[trigger] offered[j]).spec_id() != id@,
                Err(e) => (forall|i: int| 0 <= i < offered.len() ==> (#[trigger] offered[i]).spec_id() != id@)
                    && e == (CoreError::Unsupported { subject: Subject::DirectoryAction }),
            }
        }),
{
    find_directory_action(offered_directory_actions(kind_actions, is_root), id)
}


} // verus!
