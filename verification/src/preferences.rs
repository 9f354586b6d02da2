//! User preferences: the stored row, partial updates to it, the policy that
//! keeps the Parakeet transcription provider away from the Arabic UI, and the
//! in-memory copy that is only replaced once a write has been committed.

use vstd::prelude::*;
use crate::text::str_equal;

verus! {

/// The single stored preferences row.
#[derive(Debug, Clone)]
pub struct UserPreferences {
    pub id: String,
    pub ui_locale: String,
    pub summary_language: String,
    pub transcription_language: String,
    /// Seconds since the Unix epoch of the last write.
    pub updated_at: i64,
}

/// The preferences row with its texts as character sequences.
pub struct UserPreferencesView {
    pub id: Seq<char>,
    pub ui_locale: Seq<char>,
    pub summary_language: Seq<char>,
    pub transcription_language: Seq<char>,
    pub updated_at: i64,
}

impl View for UserPreferences {
    type V = UserPreferencesView;

    open spec fn view(&self) -> UserPreferencesView {
        UserPreferencesView {
            id: self.id@,
            ui_locale: self.ui_locale@,
            summary_language: self.summary_language@,
            transcription_language: self.transcription_language@,
            updated_at: self.updated_at,
        }
    }
}

impl UserPreferences {
    /// A field-by-field copy.
    pub fn snapshot(&self) -> (p: Self)
        ensures
            p == *self,
    {
        UserPreferences {
            id: self.id.clone(),
            ui_locale: self.ui_locale.clone(),
            summary_language: self.summary_language.clone(),
            transcription_language: self.transcription_language.clone(),
            updated_at: self.updated_at,
        }
    }
}

/// A partial update of the preferences. `provider` does not belong to the
/// preferences row: it selects the transcription provider, stored with the
/// transcription settings.
#[derive(Debug, Clone)]
pub struct UserPreferencesPatch {
    pub ui_locale: Option<String>,
    pub summary_language: Option<String>,
    pub transcription_language: Option<String>,
    pub provider: Option<String>,
}

impl Default for UserPreferencesPatch {
    fn default() -> (p: Self)
        ensures
            p.ui_locale is None,
            p.summary_language is None,
            p.transcription_language is None,
            p.provider is None,
    {
        UserPreferencesPatch {
            ui_locale: None,
            summary_language: None,
            transcription_language: None,
            provider: None,
        }
    }
}

/// Why a preferences write failed.
#[derive(Debug)]
pub enum PreferencesError {
    /// The patch asks for a combination the policy forbids.
    InvalidCombination { reason: String },
    /// The database failed; the text is the driver's message.
    Database(String),
}

/// The value of a patched field: the patch's when it has one.
pub open spec fn patched(field: Option<String>, current: String) -> String {
    match field {
        Some(v) => v,
        None => current,
    }
}

/// `current` with the patch's present fields put in. The provider is not
/// part of the row, and the id and timestamp are kept.
pub open spec fn merged(current: UserPreferences, patch: UserPreferencesPatch) -> UserPreferences {
    UserPreferences {
        id: current.id,
        ui_locale: patched(patch.ui_locale, current.ui_locale),
        summary_language: patched(patch.summary_language, current.summary_language),
        transcription_language: patched(patch.transcription_language, current.transcription_language),
        updated_at: current.updated_at,
    }
}

fn patched_value(field: &Option<String>, current: &String) -> (v: String)
    ensures
        v == patched(*field, *current),
{
    match field {
        Some(v) => v.clone(),
        None => current.clone(),
    }
}

impl UserPreferences {
    /// Fields present in `patch` override those of `self`; the result is a
    /// new value. The patch's `provider` is not merged.
    pub fn merge(&self, patch: &UserPreferencesPatch) -> (out: Self)
        ensures
            out == merged(*self, *patch),
    {
        UserPreferences {
            id: self.id.clone(),
            ui_locale: patched_value(&patch.ui_locale, &self.ui_locale),
            summary_language: patched_value(&patch.summary_language, &self.summary_language),
            transcription_language: patched_value(&patch.transcription_language, &self.transcription_language),
            updated_at: self.updated_at,
        }
    }
}


/// Each field of the merge, stated field by field: a field the patch names
/// takes the patch's value, a field it leaves out keeps the current value,
/// and the id and timestamp never change.
pub proof fn lemma_merge_fields(current: UserPreferences, patch: UserPreferencesPatch)
    ensures
        merged(current, patch).id == current.id,
        merged(current, patch).updated_at == current.updated_at,
        patch.ui_locale is None ==> merged(current, patch).ui_locale == current.ui_locale,
        patch.ui_locale is Some ==> merged(current, patch).ui_locale == patch.ui_locale->0,
        patch.summary_language is None ==> merged(current, patch).summary_language == current.summary_language,
        patch.summary_language is Some ==> merged(current, patch).summary_language == patch.summary_language->0,
        patch.transcription_language is None
            ==> merged(current, patch).transcription_language == current.transcription_language,
        patch.transcription_language is Some
            ==> merged(current, patch).transcription_language == patch.transcription_language->0,
{
}

/// A patch with no fields leaves the preferences unchanged.
pub proof fn lemma_empty_patch_is_identity(current: UserPreferences, patch: UserPreferencesPatch)
    requires
        patch.ui_locale is None,
        patch.summary_language is None,
        patch.transcription_language is None,
    ensures
        merged(current, patch) == current,
{
}

/// Applying the same patch twice is the same as applying it once.
pub proof fn lemma_merge_idempotent(current: UserPreferences, patch: UserPreferencesPatch)
    ensures
        merged(merged(current, patch), patch) == merged(current, patch),
{
}

/// The reason given when a patch is rejected by the policy.
pub open spec fn rejection_reason() -> Seq<char> {
    "Parakeet provider is not supported when ui_locale == 'ar'; use localWhisper + large-v3"@
}

/// The patch asks directly for the Parakeet provider while the merged UI
/// locale is Arabic.
pub open spec fn rejects(patch: UserPreferencesPatch, merged: UserPreferences) -> bool {
    &&& patch.provider matches Some(p) && p@ == "parakeet"@
    &&& merged.ui_locale@ == "ar"@
}

/// The patch switches the UI locale to Arabic from another locale.
pub open spec fn repoints(patch: UserPreferencesPatch, current: UserPreferences) -> bool {
    &&& patch.ui_locale matches Some(l) && l@ == "ar"@
    &&& current.ui_locale@ != "ar"@
}

/// Rejects a patch that asks for the Parakeet provider while the merged
/// preferences have the Arabic UI locale. Reads the patch (what the user
/// asks for), not only the merged state.
pub fn check_reject_branch(patch: &UserPreferencesPatch, merged: &UserPreferences) -> (r: Result<(), PreferencesError>)
    ensures
        r is Err <==> rejects(*patch, *merged),
        r is Err <==> (patch.provider is Some && patch.provider->0@ == "parakeet"@ && merged.ui_locale@ == "ar"@),
        r matches Err(e) ==> e matches PreferencesError::InvalidCombination { reason } && reason@ == rejection_reason(),
{
    let asks_parakeet = match &patch.provider {
        Some(p) => str_equal(p.as_str(), "parakeet"),
        None => false,
    };
    if asks_parakeet && str_equal(merged.ui_locale.as_str(), "ar") {
        return Err(
            PreferencesError::InvalidCombination {
                reason: "Parakeet provider is not supported when ui_locale == 'ar'; use localWhisper + large-v3".to_string(),
            },
        );
    }
    Ok(())
}

/// Only Parakeet is refused, and only under the Arabic UI: a patch is
/// rejected exactly when it asks for the provider "parakeet" and the merged
/// UI locale is "ar"; any other provider, or none, passes in any locale.
pub proof fn lemma_only_parakeet_under_arabic_is_rejected(patch: UserPreferencesPatch, merged: UserPreferences)
    ensures
        rejects(patch, merged) <==> (
            patch.provider is Some && patch.provider->0@ == "parakeet"@ && merged.ui_locale@ == "ar"@),
        patch.provider is None ==> !rejects(patch, merged),
        merged.ui_locale@ != "ar"@ ==> !rejects(patch, merged),
        rejection_reason() == "Parakeet provider is not supported when ui_locale == 'ar'; use localWhisper + large-v3"@,
{
}

/// The repoint fires exactly on a patch that sets the UI locale to "ar"
/// while the current locale is not "ar"; setting "ar" again does not fire it.
pub proof fn lemma_repoint_only_on_switch_to_arabic(patch: UserPreferencesPatch, current: UserPreferences)
    ensures
        repoints(patch, current) <==> (
            patch.ui_locale is Some && patch.ui_locale->0@ == "ar"@ && current.ui_locale@ != "ar"@),
        current.ui_locale@ == "ar"@ ==> !repoints(patch, current),
        patch.ui_locale is None ==> !repoints(patch, current),
{
}

/// Whether the transcription settings must be pointed at local Whisper
/// (large-v3): only when the patch flips the UI locale to Arabic from a
/// locale that was not Arabic. Takes the preferences before the merge; a
/// patch that sets Arabic again does not fire it.
pub fn should_auto_repoint(patch: &UserPreferencesPatch, current: &UserPreferences) -> (b: bool)
    ensures
        b == repoints(*patch, *current),
        b == (patch.ui_locale is Some && patch.ui_locale->0@ == "ar"@ && current.ui_locale@ != "ar"@),
{
    let to_arabic = match &patch.ui_locale {
        Some(l) => str_equal(l.as_str(), "ar"),
        None => false,
    };
    to_arabic && !str_equal(current.ui_locale.as_str(), "ar")
}

/// What a write of a patch does, decided before any transaction opens.
#[derive(Debug)]
pub struct PatchPlan {
    /// The values written to the preferences row.
    pub merged: UserPreferences,
    /// Point the transcription settings at local Whisper with large-v3.
    pub repoint_to_local_whisper: bool,
    /// The provider written to the transcription settings, after any repoint.
    pub provider_write: Option<String>,
}

/// The plan of an accepted patch.
pub open spec fn planned_write(current: UserPreferences, patch: UserPreferencesPatch) -> PatchPlan {
    PatchPlan {
        merged: merged(current, patch),
        repoint_to_local_whisper: repoints(patch, current),
        provider_write: patch.provider,
    }
}

/// Decides a patch write: merge, then the policy check, then the repoint
/// and the explicit provider write. A rejected patch yields the error and
/// nothing to write.
pub fn plan_patch(current: &UserPreferences, patch: &UserPreferencesPatch) -> (r: Result<PatchPlan, PreferencesError>)
    ensures
        r is Err <==> rejects(*patch, merged(*current, *patch)),
        r is Err <==> (patch.provider is Some && patch.provider->0@ == "parakeet"@
            && merged(*current, *patch).ui_locale@ == "ar"@),
        r matches Err(e) ==> e matches PreferencesError::InvalidCombination { reason } && reason@ == rejection_reason(),
        r matches Ok(plan) ==> plan == planned_write(*current, *patch),
{
    let merged = current.merge(patch);
    match check_reject_branch(patch, &merged) {
        Err(e) => Err(e),
        Ok(()) => {
            let repoint = should_auto_repoint(patch, current);
            let provider_write = match &patch.provider {
                Some(p) => Some(p.clone()),
                None => None,
            };
            Ok(PatchPlan { merged, repoint_to_local_whisper: repoint, provider_write })
        },
    }
}

/// The transcription provider after a plan has been carried out on
/// settings whose provider was `provider`: the repoint first, then the
/// explicit write.
pub open spec fn provider_after(provider: Seq<char>, plan: PatchPlan) -> Seq<char> {
    match plan.provider_write {
        Some(p) => p@,
        None => if plan.repoint_to_local_whisper {
            "localWhisper"@
        } else {
            provider
        },
    }
}

/// The transcription model after a plan has been carried out on settings
/// whose model was `model`: the repoint sets large-v3; an explicit provider
/// write leaves the model alone.
pub open spec fn model_after(model: Seq<char>, plan: PatchPlan) -> Seq<char> {
    if plan.repoint_to_local_whisper {
        "large-v3"@
    } else {
        model
    }
}

/// The policy: with the Arabic UI locale the provider is never Parakeet.
pub open spec fn arabic_policy_holds(ui_locale: Seq<char>, provider: Seq<char>) -> bool {
    ui_locale == "ar"@ ==> provider != "parakeet"@
}

/// Every accepted write keeps the Arabic policy: if the stored preferences
/// and provider respected it before, the written ones respect it after.
/// The repoint and an explicit Parakeet request never meet in one accepted
/// plan, and a switch to Arabic without an explicit provider ends on local
/// Whisper with large-v3.
pub proof fn lemma_accepted_plan_keeps_arabic_policy(
    current: UserPreferences,
    provider: Seq<char>,
    patch: UserPreferencesPatch,
)
    requires
        arabic_policy_holds(current.ui_locale@, provider),
        !rejects(patch, merged(current, patch)),
    ensures
        arabic_policy_holds(
            merged(current, patch).ui_locale@,
            provider_after(provider, planned_write(current, patch)),
        ),
        repoints(patch, current) ==> !(patch.provider matches Some(p) && p@ == "parakeet"@),
        repoints(patch, current) && patch.provider is None ==> {
            &&& provider_after(provider, planned_write(current, patch)) == "localWhisper"@
            &&& forall|model: Seq<char>| model_after(model, planned_write(current, patch)) == "large-v3"@
        },
{
    reveal_strlit("localWhisper");
    reveal_strlit("parakeet");
    assert("localWhisper"@[0] != "parakeet"@[0]);
}


/// The preferences in effect before any have been loaded.
pub open spec fn initial_preferences() -> UserPreferencesView {
    UserPreferencesView {
        id: "1"@,
        ui_locale: "en"@,
        summary_language: "en"@,
        transcription_language: "auto"@,
        updated_at: 0,
    }
}


/// The reply text for a failed write.
pub open spec fn error_reply(e: PreferencesError) -> Seq<char> {
    match e {
        PreferencesError::InvalidCombination { reason } => reason@,
        PreferencesError::Database(msg) => "Database error: "@ + msg@,
    }
}

impl PreferencesError {
    /// The text shown to the user for this error.
    pub fn reply(&self) -> (s: String)
        ensures
            s@ == error_reply(*self),
    {
        match self {
            PreferencesError::InvalidCombination { reason } => reason.clone(),
            PreferencesError::Database(msg) => "Database error: ".to_string().concat(msg.as_str()),
        }
    }

    /// The error's description: "invalid combination: ..." or
    /// "database error: ...".
    pub fn describe(&self) -> (s: String)
        ensures
            s@ == match *self {
                PreferencesError::InvalidCombination { reason } => "invalid combination: "@ + reason@,
                PreferencesError::Database(msg) => "database error: "@ + msg@,
            },
    {
        match self {
            PreferencesError::InvalidCombination { reason } => "invalid combination: ".to_string().concat(reason.as_str()),
            PreferencesError::Database(msg) => "database error: ".to_string().concat(msg.as_str()),
        }
    }
}

/// The in-memory copy of the preferences row that readers use. It is only
/// replaced by loading the row or by the result of a committed write.
pub struct PreferencesCache {
    current: UserPreferences,
}

impl PreferencesCache {
    /// The preferences the cache holds.
    pub closed spec fn current(self) -> UserPreferences {
        self.current
    }

    /// A cache holding the initial preferences: id "1", English UI and
    /// summaries, automatic transcription language, timestamp 0.
    pub fn new() -> (c: Self)
        ensures
            c.current()@ == initial_preferences(),
    {
        PreferencesCache {
            current: UserPreferences {
                id: "1".to_string(),
                ui_locale: "en".to_string(),
                summary_language: "en".to_string(),
                transcription_language: "auto".to_string(),
                updated_at: 0,
            },
        }
    }

    /// Replaces the cached preferences by the row loaded from storage.
    pub fn hydrate(&mut self, loaded: UserPreferences)
        ensures
            final(self).current() == loaded,
    {
        self.current = loaded;
    }

    /// Takes the outcome of a write. A committed write (`Ok`) replaces the
    /// cached preferences and is returned; a failed one leaves the cache as
    /// it was and yields the error's reply text.
    pub fn settle_write(&mut self, outcome: Result<UserPreferences, PreferencesError>) -> (r: Result<UserPreferences, String>)
        ensures
            match outcome {
                Ok(fresh) => final(self).current() == fresh && r == Ok::<UserPreferences, String>(fresh),
                Err(e) => final(self).current() == old(self).current() && (r matches Err(m) && m@ == error_reply(e)),
            },
    {
        match outcome {
            Ok(fresh) => {
                self.current = fresh.snapshot();
                Ok(fresh)
            },
            Err(e) => Err(e.reply()),
        }
    }
}

/// A copy of the cached preferences.
pub fn read(cache: &PreferencesCache) -> (p: UserPreferences)
    ensures
        p == cache.current(),
{
    cache.current.snapshot()
}

} // verus!
