//! The automation store: create, update, toggle and delete of automation
//! records, each write validated — graph compiled to script text, script
//! text accepted by the sandbox — before it reaches the index, under
//! optimistic versioning. A failed write leaves the store exactly as it
//! was; a record is never kept with a script that does not belong to its
//! graph.

use vstd::prelude::*;

use crate::catalog::BlockStore;
use crate::catalog::BlockDefinition;
use crate::catalog::SchemaV;
use crate::engine::ScriptEngine;
use crate::engine::compile_of;
use crate::generator::CodeGenerator;
use crate::generator::spec_generate;
use crate::generator::spec_message;
use crate::host;
use crate::json::JsonV;
use crate::json::JsonValue;

verus! {

broadcast use vstd::std_specs::vec::group_vec_axioms;

/// One trigger of an automation: a kind and its configuration.
#[derive(Debug)]
pub struct TriggerDefinition {
    pub trigger_type: String,
    pub configuration: Vec<(String, JsonValue)>,
}

/// The content of a [`TriggerDefinition`].
pub struct TriggerDefinitionV {
    pub trigger_type: Seq<char>,
    pub configuration: Seq<(Seq<char>, JsonV)>,
}

impl DeepView for TriggerDefinition {
    type V = TriggerDefinitionV;

    open spec fn deep_view(&self) -> TriggerDefinitionV {
        TriggerDefinitionV {
            trigger_type: self.trigger_type@,
            configuration: self.configuration.deep_view(),
        }
    }
}

/// One condition of an automation: a kind and its configuration.
#[derive(Debug)]
pub struct ConditionDefinition {
    pub condition_type: String,
    pub configuration: Vec<(String, JsonValue)>,
}

/// The content of a [`ConditionDefinition`].
pub struct ConditionDefinitionV {
    pub condition_type: Seq<char>,
    pub configuration: Seq<(Seq<char>, JsonV)>,
}

impl DeepView for ConditionDefinition {
    type V = ConditionDefinitionV;

    open spec fn deep_view(&self) -> ConditionDefinitionV {
        ConditionDefinitionV {
            condition_type: self.condition_type@,
            configuration: self.configuration.deep_view(),
        }
    }
}

fn clone_config(v: &Vec<(String, JsonValue)>) -> (r: Vec<(String, JsonValue)>)
    ensures
        r.deep_view() =~= v.deep_view(),
{
    let mut out: Vec<(String, JsonValue)> = Vec::new();
    let n = v.len();
    for i in 0..n
        invariant
            n == v@.len(),
            out@.len() == i,
            forall|j: int|
                0 <= j < i ==> #[trigger] out@[j].0@ == v@[j].0@ && out@[j].1.deep_view()
                    == v@[j].1.deep_view(),
    {
        let entry = &v[i];
        out.push((entry.0.clone(), entry.1.clone()));
    }
    out
}

impl Clone for TriggerDefinition {
    /// A clone carries the same content: the views are equal.
    fn clone(&self) -> (r: Self)
        ensures
            r.deep_view() == self.deep_view(),
    {
        let r = TriggerDefinition {
            trigger_type: self.trigger_type.clone(),
            configuration: clone_config(&self.configuration),
        };
        proof {
            assert(r.deep_view().configuration =~= self.deep_view().configuration);
        }
        r
    }
}

impl Clone for ConditionDefinition {
    /// A clone carries the same content: the views are equal.
    fn clone(&self) -> (r: Self)
        ensures
            r.deep_view() == self.deep_view(),
    {
        let r = ConditionDefinition {
            condition_type: self.condition_type.clone(),
            configuration: clone_config(&self.configuration),
        };
        proof {
            assert(r.deep_view().configuration =~= self.deep_view().configuration);
        }
        r
    }
}

fn clone_triggers(v: &Vec<TriggerDefinition>) -> (r: Vec<TriggerDefinition>)
    ensures
        r.deep_view() =~= v.deep_view(),
{
    let mut out: Vec<TriggerDefinition> = Vec::new();
    let n = v.len();
    for i in 0..n
        invariant
            n == v@.len(),
            out@.len() == i,
            forall|j: int| 0 <= j < i ==> #[trigger] out@[j].deep_view() == v@[j].deep_view(),
    {
        out.push(v[i].clone());
    }
    out
}

fn clone_conditions(v: &Vec<ConditionDefinition>) -> (r: Vec<ConditionDefinition>)
    ensures
        r.deep_view() =~= v.deep_view(),
{
    let mut out: Vec<ConditionDefinition> = Vec::new();
    let n = v.len();
    for i in 0..n
        invariant
            n == v@.len(),
            out@.len() == i,
            forall|j: int| 0 <= j < i ==> #[trigger] out@[j].deep_view() == v@[j].deep_view(),
    {
        out.push(v[i].clone());
    }
    out
}

fn clone_opt_string(s: &Option<String>) -> (r: Option<String>)
    ensures
        r.deep_view() == s.deep_view(),
{
    match s {
        Some(x) => Some(x.clone()),
        None => None,
    }
}

/// One automation record.
#[derive(Debug)]
pub struct Automation {
    pub id: String,
    pub name: String,
    pub description: Option<String>,
    pub enabled: bool,
    pub version: i32,
    pub triggers: Vec<TriggerDefinition>,
    pub workspace: JsonValue,
    pub conditions: Vec<ConditionDefinition>,
    pub created_at: i64,
    pub updated_at: i64,
    pub compilation_error: Option<String>,
    pub generated_script: Option<String>,
}

/// The content of an [`Automation`].
pub struct AutomationV {
    pub id: Seq<char>,
    pub name: Seq<char>,
    pub description: Option<Seq<char>>,
    pub enabled: bool,
    pub version: i32,
    pub triggers: Seq<TriggerDefinitionV>,
    pub workspace: JsonV,
    pub conditions: Seq<ConditionDefinitionV>,
    pub created_at: i64,
    pub updated_at: i64,
    pub compilation_error: Option<Seq<char>>,
    pub generated_script: Option<Seq<char>>,
}

impl DeepView for Automation {
    type V = AutomationV;

    open spec fn deep_view(&self) -> AutomationV {
        AutomationV {
            id: self.id@,
            name: self.name@,
            description: self.description.deep_view(),
            enabled: self.enabled,
            version: self.version,
            triggers: self.triggers.deep_view(),
            workspace: self.workspace.deep_view(),
            conditions: self.conditions.deep_view(),
            created_at: self.created_at,
            updated_at: self.updated_at,
            compilation_error: self.compilation_error.deep_view(),
            generated_script: self.generated_script.deep_view(),
        }
    }
}

impl Clone for Automation {
    /// A clone carries the same content: the views are equal.
    fn clone(&self) -> (r: Self)
        ensures
            r.deep_view() == self.deep_view(),
    {
        let r = Automation {
            id: self.id.clone(),
            name: self.name.clone(),
            description: clone_opt_string(&self.description),
            enabled: self.enabled,
            version: self.version,
            triggers: clone_triggers(&self.triggers),
            workspace: self.workspace.clone(),
            conditions: clone_conditions(&self.conditions),
            created_at: self.created_at,
            updated_at: self.updated_at,
            compilation_error: clone_opt_string(&self.compilation_error),
            generated_script: clone_opt_string(&self.generated_script),
        };
        proof {
            assert(r.deep_view().triggers =~= self.deep_view().triggers);
            assert(r.deep_view().conditions =~= self.deep_view().conditions);
        }
        r
    }
}

/// What a caller hands in to create an automation.
#[derive(Debug)]
pub struct AutomationCreate {
    pub name: String,
    pub description: Option<String>,
    pub triggers: Vec<TriggerDefinition>,
    pub workspace: JsonValue,
    pub conditions: Vec<ConditionDefinition>,
}

/// What a caller hands in to update an automation; `version` is the
/// version the caller believes is stored.
#[derive(Debug)]
pub struct AutomationUpdate {
    pub name: String,
    pub description: Option<String>,
    pub enabled: bool,
    pub version: i32,
    pub triggers: Vec<TriggerDefinition>,
    pub workspace: JsonValue,
    pub conditions: Vec<ConditionDefinition>,
}

/// Why the store refused a write.
#[derive(Debug)]
pub enum StoreError {
    /// The new graph did not validate; the words of the failure.
    Validation(String),
    /// The caller's expected version is not the stored version.
    VersionConflict,
    /// The stored version has reached the largest representable value, so
    /// one more update cannot keep the version exact.
    VersionLimit,
}

/// The content of a [`StoreError`].
pub enum StoreErrorV {
    Validation(Seq<char>),
    VersionConflict,
    VersionLimit,
}

impl DeepView for StoreError {
    type V = StoreErrorV;

    open spec fn deep_view(&self) -> StoreErrorV {
        match self {
            StoreError::Validation(m) => StoreErrorV::Validation(m@),
            StoreError::VersionConflict => StoreErrorV::VersionConflict,
            StoreError::VersionLimit => StoreErrorV::VersionLimit,
        }
    }
}

impl StoreError {
    /// The words the error carries.
    pub fn message(&self) -> (r: String)
        ensures
            r@ == (match self.deep_view() {
                StoreErrorV::Validation(m) => m,
                StoreErrorV::VersionConflict => "Version mismatch - automation has been modified"@,
                StoreErrorV::VersionLimit => "Version limit reached"@,
            }),
    {
        match self {
            StoreError::Validation(m) => m.clone(),
            StoreError::VersionConflict => String::from_str(
                "Version mismatch - automation has been modified",
            ),
            StoreError::VersionLimit => String::from_str("Version limit reached"),
        }
    }
}

/// What validating a workspace against a catalog yields: the script text
/// when the graph compiles and the sandbox accepts the text, else the
/// message of the first failure.
pub open spec fn spec_validate(cat: Map<Seq<char>, SchemaV>, ws: JsonV) -> Result<
    Seq<char>,
    Seq<char>,
> {
    match spec_generate(cat, ws) {
        Err(e) => Err("Script compilation error: "@ + spec_message(e)),
        Ok(script) => match compile_of(script) {
            Err(m) => Err("Script compilation error: "@ + ("Compilation error: "@ + m)),
            Ok(u) => Ok(script),
        },
    }
}

/// Sets `key` to `a` in the index, replacing an entry under the same key.
fn index_insert(v: &mut Vec<(String, Automation)>, key: String, a: Automation)
    requires
        crate::kv::assoc_unique(old(v)@),
        forall|j: int| 0 <= j < old(v)@.len() ==> (#[trigger] old(v)@[j].0)@ == old(v)@[j].1.id@,
        forall|j: int| 0 <= j < old(v)@.len() ==> (#[trigger] old(v)@[j].1).version >= 1,
        key@ == a.id@,
        a.version >= 1,
    ensures
        crate::kv::assoc_unique(final(v)@),
        forall|j: int|
            0 <= j < final(v)@.len() ==> (#[trigger] final(v)@[j].0)@ == final(v)@[j].1.id@,
        forall|j: int| 0 <= j < final(v)@.len() ==> (#[trigger] final(v)@[j].1).version >= 1,
        crate::kv::assoc_map(final(v)@) =~= crate::kv::assoc_map(old(v)@).insert(
            key@,
            a.deep_view(),
        ),
{
    match crate::kv::assoc_index_of(v, key.as_str()) {
        Some(i) => {
            proof {
                crate::kv::lemma_assoc_update(v@, i as int, (key, a));
                assert(v@.remove(i as int).insert(i as int, (key, a)) =~= v@.update(
                    i as int,
                    (key, a),
                ));
            }
            v.remove(i);
            v.insert(i, (key, a));
        },
        None => {
            proof {
                crate::kv::lemma_assoc_push(v@, (key, a));
            }
            v.push((key, a));
        },
    }
}

/// The automation store: the index of records, the compiler with its
/// catalog snapshot, and the sandbox that vets every script.
pub struct AutomationStore {
    automations: Vec<(String, Automation)>,
    code_generator: CodeGenerator,
    script_engine: ScriptEngine,
}

impl AutomationStore {
    /// The records, by identity.
    pub closed spec fn index(&self) -> Map<Seq<char>, AutomationV> {
        crate::kv::assoc_map(self.automations@)
    }

    /// The records as a sequence, in index order.
    pub closed spec fn records(&self) -> Seq<AutomationV> {
        Seq::new(self.automations@.len(), |i: int| self.automations@[i].1.deep_view())
    }

    /// The catalog the store compiles against.
    pub closed spec fn catalog(&self) -> Map<Seq<char>, SchemaV> {
        self.code_generator.block_store.catalog()
    }

    /// Each identity is indexed once, under itself, with a version of at
    /// least one, and the catalog is well-formed.
    pub closed spec fn wf(&self) -> bool {
        &&& crate::kv::assoc_unique(self.automations@)
        &&& forall|j: int|
            0 <= j < self.automations@.len() ==> (#[trigger] self.automations@[j].0)@
                == self.automations@[j].1.id@
        &&& forall|j: int|
            0 <= j < self.automations@.len() ==> (#[trigger] self.automations@[j].1).version >= 1
        &&& self.code_generator.block_store.wf()
    }

    /// A store over the given catalog, with an empty index.
    pub fn new(block_store: BlockStore) -> (s: Self)
        requires
            block_store.wf(),
        ensures
            s.wf(),
            s.index() =~= Map::<Seq<char>, AutomationV>::empty(),
            s.catalog() == block_store.catalog(),
    {
        AutomationStore {
            automations: Vec::new(),
            code_generator: CodeGenerator::new(block_store),
            script_engine: ScriptEngine::new(),
        }
    }

    /// Every record, in index order.
    pub fn list(&self) -> (r: Vec<Automation>)
        requires
            self.wf(),
        ensures
            r.deep_view() =~= self.records(),
            forall|i: int|
                0 <= i < r@.len() ==> self.index().contains_key(#[trigger] r@[i].deep_view().id),
    {
        let mut out: Vec<Automation> = Vec::new();
        let n = self.automations.len();
        for i in 0..n
            invariant
                n == self.automations@.len(),
                out@.len() == i,
                self.wf(),
                forall|j: int|
                    0 <= j < i ==> #[trigger] out@[j].deep_view()
                        == self.automations@[j].1.deep_view(),
        {
            out.push(self.automations[i].1.clone());
        }
        proof {
            crate::kv::lemma_assoc_map_chars(self.automations@);
            assert forall|i: int| 0 <= i < out@.len() implies self.index().contains_key(
                #[trigger] out@[i].deep_view().id,
            ) by {
                assert(out@[i].deep_view() == self.automations@[i].1.deep_view());
                assert(self.automations@[i].0@ == self.automations@[i].1.id@);
            }
        }
        out
    }

    /// The record under `id`, if one is indexed.
    pub fn get(&self, id: &str) -> (r: Option<Automation>)
        requires
            self.wf(),
        ensures
            match r {
                Some(a) => self.index().contains_key(id@) && a.deep_view() == self.index()[id@],
                None => !self.index().contains_key(id@),
            },
    {
        proof {
            crate::kv::lemma_assoc_map_chars(self.automations@);
        }
        match crate::kv::assoc_index_of(&self.automations, id) {
            Some(i) => Some(self.automations[i].1.clone()),
            None => None,
        }
    }

    /// Puts a record loaded from persistent storage back into the index,
    /// replacing any record under the same identity.
    pub fn restore(&mut self, a: Automation)
        requires
            old(self).wf(),
            a.version >= 1,
        ensures
            final(self).wf(),
            final(self).catalog() == old(self).catalog(),
            final(self).index() =~= old(self).index().insert(a.id@, a.deep_view()),
    {
        let key = a.id.clone();
        index_insert(&mut self.automations, key, a);
    }

    /// Compiles the record's workspace and has the sandbox vet the result:
    /// the script text exactly when both accept, else the words of the
    /// first failure. Nothing is stored or mutated.
    pub fn compile_automation_script(&self, automation: &Automation) -> (r: Result<
        String,
        StoreError,
    >)
        requires
            self.wf(),
        ensures
            match r {
                Ok(s) => spec_validate(self.catalog(), automation.workspace.deep_view())
                    == Ok::<Seq<char>, Seq<char>>(s@),
                Err(e) => e.deep_view() matches StoreErrorV::Validation(m)
                    && spec_validate(self.catalog(), automation.workspace.deep_view())
                    == Err::<Seq<char>, Seq<char>>(m),
            },
    {
        match self.code_generator.generate_code(&automation.workspace) {
            Err(e) => {
                let msg = e.message();
                Err(
                    StoreError::Validation(
                        String::from_str("Script compilation error: ").concat(msg.as_str()),
                    ),
                )
            },
            Ok(script) => {
                match self.script_engine.compile(script.as_str()) {
                    Err(e) => {
                        let msg = e.message();
                        Err(
                            StoreError::Validation(
                                String::from_str("Script compilation error: ").concat(
                                    msg.as_str(),
                                ),
                            ),
                        )
                    },
                    Ok(_ast) => Ok(script),
                }
            },
        }
    }

    /// Creates an automation: fresh identity, version one, enabled. The
    /// record is indexed exactly when its graph validates, paired with the
    /// script that validation produced; on failure the store is untouched
    /// and the error carries the failure's words.
    pub fn create(&mut self, data: AutomationCreate) -> (r: Result<Automation, StoreError>)
        requires
            old(self).wf(),
        ensures
            final(self).wf(),
            final(self).catalog() == old(self).catalog(),
            r is Ok <==> spec_validate(old(self).catalog(), data.workspace.deep_view()) is Ok,
            match r {
                Ok(a) => {
                    &&& a.version == 1
                    &&& a.enabled
                    &&& a.name@ == data.name@
                    &&& a.description.deep_view() == data.description.deep_view()
                    &&& a.triggers.deep_view() == data.triggers.deep_view()
                    &&& a.conditions.deep_view() == data.conditions.deep_view()
                    &&& a.workspace.deep_view() == data.workspace.deep_view()
                    &&& a.compilation_error is None
                    &&& a.created_at == a.updated_at
                    &&& a.generated_script matches Some(s) && spec_validate(
                        old(self).catalog(),
                        data.workspace.deep_view(),
                    ) == Ok::<Seq<char>, Seq<char>>(s@)
                    &&& final(self).index() =~= old(self).index().insert(a.id@, a.deep_view())
                },
                Err(e) => {
                    &&& *final(self) == *old(self)
                    &&& e.deep_view() matches StoreErrorV::Validation(m) && spec_validate(
                        old(self).catalog(),
                        data.workspace.deep_view(),
                    ) == Err::<Seq<char>, Seq<char>>(m)
                },
            },
    {
        let now = host::now_millis();
        let id = host::fresh_id();
        let mut automation = Automation {
            id,
            name: data.name,
            description: data.description,
            enabled: true,
            version: 1,
            triggers: data.triggers,
            workspace: data.workspace,
            conditions: data.conditions,
            created_at: now,
            updated_at: now,
            compilation_error: None,
            generated_script: None,
        };
        match self.compile_automation_script(&automation) {
            Err(e) => Err(e),
            Ok(script) => {
                automation.generated_script = Some(script);
                let key = automation.id.clone();
                let stored = automation.clone();
                index_insert(&mut self.automations, key, stored);
                Ok(automation)
            },
        }
    }

    /// Updates the record under `id`, under optimistic versioning. A
    /// missing identity answers `None` and changes nothing. A caller whose
    /// expected version is not the stored one is refused with
    /// `VersionConflict` and the record is left word for word as it was —
    /// nothing is compiled. Otherwise the new graph is validated exactly as
    /// in `create`: on success the version grows by exactly one and the
    /// fresh record replaces the old; on failure the old record stays.
    pub fn update(&mut self, id: &str, data: AutomationUpdate) -> (r: Result<
        Option<Automation>,
        StoreError,
    >)
        requires
            old(self).wf(),
        ensures
            final(self).wf(),
            final(self).catalog() == old(self).catalog(),
            !old(self).index().contains_key(id@) ==> (r matches Ok(a) && a is None && *final(self)
                == *old(self)),
            old(self).index().contains_key(id@) && data.version != old(self).index()[id@].version
                ==> (r matches Err(e) && e.deep_view() == StoreErrorV::VersionConflict
                && *final(self) == *old(self)),
            old(self).index().contains_key(id@) && data.version == old(self).index()[id@].version
                && data.version == i32::MAX ==> (r matches Err(e) && e.deep_view()
                == StoreErrorV::VersionLimit && *final(self) == *old(self)),
            old(self).index().contains_key(id@) && data.version == old(self).index()[id@].version
                && data.version < i32::MAX ==> {
                &&& (r matches Ok(a) && a is Some) <==> spec_validate(
                    old(self).catalog(),
                    data.workspace.deep_view(),
                ) is Ok
                &&& (match r {
                    Ok(Some(a)) => {
                        &&& a.id@ == id@
                        &&& a.version == old(self).index()[id@].version + 1
                        &&& a.enabled == data.enabled
                        &&& a.name@ == data.name@
                        &&& a.description.deep_view() == data.description.deep_view()
                        &&& a.triggers.deep_view() == data.triggers.deep_view()
                        &&& a.conditions.deep_view() == data.conditions.deep_view()
                        &&& a.workspace.deep_view() == data.workspace.deep_view()
                        &&& a.created_at == old(self).index()[id@].created_at
                        &&& a.compilation_error is None
                        &&& a.generated_script matches Some(s) && spec_validate(
                            old(self).catalog(),
                            data.workspace.deep_view(),
                        ) == Ok::<Seq<char>, Seq<char>>(s@)
                        &&& final(self).index() =~= old(self).index().insert(id@, a.deep_view())
                    },
                    Ok(None) => false,
                    Err(e) => {
                        &&& *final(self) == *old(self)
                        &&& e.deep_view() matches StoreErrorV::Validation(m) && spec_validate(
                            old(self).catalog(),
                            data.workspace.deep_view(),
                        ) == Err::<Seq<char>, Seq<char>>(m)
                    },
                })
            },
    {
        proof {
            crate::kv::lemma_assoc_map_chars(self.automations@);
        }
        let i = match crate::kv::assoc_index_of(&self.automations, id) {
            Some(i) => i,
            None => {
                return Ok(None);
            },
        };
        let existing_version = self.automations[i].1.version;
        let existing_created_at = self.automations[i].1.created_at;
        if data.version != existing_version {
            return Err(StoreError::VersionConflict);
        }
        if existing_version == i32::MAX {
            return Err(StoreError::VersionLimit);
        }
        let mut updated = Automation {
            id: id.to_owned(),
            name: data.name,
            description: data.description,
            enabled: data.enabled,
            version: existing_version + 1,
            triggers: data.triggers,
            workspace: data.workspace,
            conditions: data.conditions,
            created_at: existing_created_at,
            updated_at: host::now_millis(),
            compilation_error: None,
            generated_script: None,
        };
        match self.compile_automation_script(&updated) {
            Err(e) => Err(e),
            Ok(script) => {
                updated.generated_script = Some(script);
                let key = updated.id.clone();
                let stored = updated.clone();
                index_insert(&mut self.automations, key, stored);
                Ok(Some(updated))
            },
        }
    }

    /// Flips only the enabled flag and the update time of the record under
    /// `id`; the graph and its script are not recompiled, and every other
    /// field is kept word for word.
    pub fn toggle(&mut self, id: &str, enabled: bool) -> (r: Option<Automation>)
        requires
            old(self).wf(),
        ensures
            final(self).wf(),
            final(self).catalog() == old(self).catalog(),
            !old(self).index().contains_key(id@) ==> r is None && *final(self) == *old(self),
            old(self).index().contains_key(id@) ==> (r matches Some(a) && {
                &&& a.deep_view() == AutomationV {
                    enabled: enabled,
                    updated_at: a.updated_at,
                    ..old(self).index()[id@]
                }
                &&& final(self).index() =~= old(self).index().insert(id@, a.deep_view())
            }),
    {
        proof {
            crate::kv::lemma_assoc_map_chars(self.automations@);
        }
        let i = match crate::kv::assoc_index_of(&self.automations, id) {
            Some(i) => i,
            None => {
                return None;
            },
        };
        let mut automation = self.automations[i].1.clone();
        automation.enabled = enabled;
        automation.updated_at = host::now_millis();
        let key = automation.id.clone();
        let stored = automation.clone();
        index_insert(&mut self.automations, key, stored);
        Some(automation)
    }

    /// Removes the record under `id`, telling whether one was there.
    pub fn delete(&mut self, id: &str) -> (r: bool)
        requires
            old(self).wf(),
        ensures
            final(self).wf(),
            final(self).catalog() == old(self).catalog(),
            r == old(self).index().contains_key(id@),
            final(self).index() =~= old(self).index().remove(id@),
    {
        proof {
            crate::kv::lemma_assoc_map_chars(self.automations@);
        }
        match crate::kv::assoc_index_of(&self.automations, id) {
            Some(i) => {
                proof {
                    crate::kv::lemma_assoc_remove(self.automations@, i as int);
                }
                self.automations.remove(i);
                true
            },
            None => {
                false
            },
        }
    }

    /// The custom block definitions the catalog holds, in registration
    /// order.
    pub closed spec fn block_defs(&self) -> Seq<crate::catalog::BlockDefinitionV> {
        self.code_generator.block_store.custom_defs()
    }

    /// The custom block definitions of the catalog, by type name.
    pub closed spec fn custom_blocks(&self) -> Map<Seq<char>, crate::catalog::BlockDefinitionV> {
        self.code_generator.block_store.custom()
    }

    /// The built-in templates of the catalog, by type name.
    pub closed spec fn builtin_blocks(&self) -> Map<Seq<char>, Seq<char>> {
        self.code_generator.block_store.builtins()
    }

    /// Every block definition the catalog holds, for the editor.
    pub fn list_blocks(&self) -> (r: Vec<BlockDefinition>)
        requires
            self.wf(),
        ensures
            r.deep_view() =~= self.block_defs(),
    {
        self.code_generator.block_store.list()
    }

    /// The definition of one block type, as the catalog resolves it: the
    /// schema the compiler would consult for that type.
    pub fn get_block(&self, block_type: &str) -> (r: Option<BlockDefinition>)
        requires
            self.wf(),
        ensures
            r is Some <==> self.catalog().contains_key(block_type@),
            r matches Some(d) ==> crate::catalog::schema_of(d.deep_view()) == self.catalog()[
                block_type@
            ] && d.deep_view().block_type == block_type@,
    {
        self.code_generator.block_store.get(block_type)
    }

    /// Registers or replaces a block definition in the catalog the compiler
    /// consults; later compiles see it. The stored definition is the given
    /// one up to its identity and timestamps, other definitions and the
    /// built-in templates are untouched, and the automation index does not
    /// move.
    pub fn create_or_update_block(&mut self, block: BlockDefinition)
        requires
            old(self).wf(),
        ensures
            final(self).wf(),
            final(self).index() == old(self).index(),
            final(self).builtin_blocks() == old(self).builtin_blocks(),
            final(self).custom_blocks().contains_key(block.block_type@),
            crate::catalog::same_but_meta(
                final(self).custom_blocks()[block.block_type@],
                block.deep_view(),
            ),
            final(self).custom_blocks().remove(block.block_type@) =~= old(
                self,
            ).custom_blocks().remove(block.block_type@),
            final(self).catalog().contains_key(block.block_type@),
    {
        self.code_generator.block_store.create_or_update(block);
    }

    /// Removes the custom definition of a block type, telling whether one
    /// was there. Built-in templates and the automation index are
    /// untouched, so a shadowed built-in template becomes visible again.
    pub fn delete_block(&mut self, block_type: &str) -> (r: bool)
        requires
            old(self).wf(),
        ensures
            final(self).wf(),
            final(self).index() == old(self).index(),
            r == old(self).custom_blocks().contains_key(block_type@),
            final(self).custom_blocks() =~= old(self).custom_blocks().remove(block_type@),
            final(self).builtin_blocks() == old(self).builtin_blocks(),
    {
        self.code_generator.block_store.delete(block_type)
    }
}

} // verus!
