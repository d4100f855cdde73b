//! What a model back end offers and answers, and the registry of the
//! back ends known to the application.
use vstd::prelude::*;
use crate::json::{Json, JsonV};
use crate::settings::Settings;
use crate::text::str_eq;

verus! {

/// A setting that a model needs, as the settings screen shows it.
pub struct ConfigField {
    pub key: String,
    pub label: String,
    pub is_secret: bool,
    pub placeholder: String,
}

/// The view of a setting description.
pub struct ConfigFieldV {
    pub key: Seq<char>,
    pub label: Seq<char>,
    pub is_secret: bool,
    pub placeholder: Seq<char>,
}

impl View for ConfigField {
    type V = ConfigFieldV;

    open spec fn view(&self) -> ConfigFieldV {
        ConfigFieldV {
            key: self.key@,
            label: self.label@,
            is_secret: self.is_secret,
            placeholder: self.placeholder@,
        }
    }
}

impl DeepView for ConfigField {
    type V = ConfigFieldV;

    open spec fn deep_view(&self) -> ConfigFieldV {
        self@
    }
}

impl ConfigField {
    /// A copy of this description.
    pub fn duplicate(&self) -> (r: ConfigField)
        ensures
            r@ == self@,
    {
        ConfigField {
            key: self.key.clone(),
            label: self.label.clone(),
            is_secret: self.is_secret,
            placeholder: self.placeholder.clone(),
        }
    }
}

/// A model as the model selector lists it.
pub struct ModelInfo {
    pub id: String,
    pub display_name: String,
    pub is_available: bool,
}

/// A tool call that a model asks for.
pub struct ToolCallRequest {
    pub call_id: String,
    pub tool_name: String,
    pub input: Json,
}

/// The view of a tool call request.
pub struct ToolCallV {
    pub call_id: Seq<char>,
    pub tool_name: Seq<char>,
    pub input: JsonV,
}

impl View for ToolCallRequest {
    type V = ToolCallV;

    open spec fn view(&self) -> ToolCallV {
        ToolCallV { call_id: self.call_id@, tool_name: self.tool_name@, input: self.input@ }
    }
}

impl DeepView for ToolCallRequest {
    type V = ToolCallV;

    open spec fn deep_view(&self) -> ToolCallV {
        self@
    }
}

/// One answer of a model: its text, the tools it wants to call, and the
/// tokens the turn used.
pub struct ModelResponse {
    pub text: Option<String>,
    pub tool_calls: Vec<ToolCallRequest>,
    pub input_tokens: u64,
    pub output_tokens: u64,
}

/// A tool as a model is told about it.
pub struct ToolSpec {
    pub name: String,
    pub description: String,
    pub parameters: Json,
}

/// What the registry knows of a model: its identity, the settings it needs
/// and how the settings screen describes them.
pub struct ModelSpec {
    pub model_id: String,
    pub display_name: String,
    pub required_config_keys: Vec<String>,
    pub config_fields: Vec<ConfigField>,
}

/// Whether every key in `keys` is set to a non-empty value.
pub open spec fn keys_available(keys: Seq<Seq<char>>, settings: Map<Seq<char>, Seq<char>>) -> bool {
    forall|i: int|
        0 <= i < keys.len() ==> settings.contains_key(#[trigger] keys[i]) && settings[keys[i]].len()
            > 0
}

/// `Model::is_available`: whether all the keys a model requires are set and
/// non-empty.
pub fn is_available(keys: &Vec<String>, settings: &Settings) -> (r: bool)
    ensures
        r == keys_available(keys.deep_view(), settings@),
{
    let mut i: usize = 0;
    while i < keys.len()
        invariant
            i <= keys.len(),
            forall|k: int|
                0 <= k < i ==> settings@.contains_key(#[trigger] keys.deep_view()[k])
                    && settings@[keys.deep_view()[k]].len() > 0,
        decreases keys.len() - i,
    {
        match settings.get(keys[i].as_str()) {
            Some(v) => {
                if v.unicode_len() == 0 {
                    assert(!(settings@[keys.deep_view()[i as int]].len() > 0));
                    return false;
                }
            },
            None => {
                assert(!settings@.contains_key(keys.deep_view()[i as int]));
                return false;
            },
        }
        i = i + 1;
    }
    true
}

/// The settings fields of all models, model after model.
pub open spec fn all_fields(models: Seq<ModelSpec>) -> Seq<ConfigFieldV>
    decreases models.len(),
{
    if models.len() == 0 {
        Seq::empty()
    } else {
        all_fields(models.drop_last()) + models.last().config_fields.deep_view()
    }
}

/// The keys of a list of fields.
pub open spec fn field_keys(fields: Seq<ConfigFieldV>) -> Seq<Seq<char>> {
    fields.map_values(|f: ConfigFieldV| f.key)
}

/// `fields` with every field dropped whose key an earlier field already has.
pub open spec fn first_by_key(fields: Seq<ConfigFieldV>) -> Seq<ConfigFieldV>
    decreases fields.len(),
{
    if fields.len() == 0 {
        Seq::empty()
    } else {
        let kept = first_by_key(fields.drop_last());
        if field_keys(kept).contains(fields.last().key) {
            kept
        } else {
            kept.push(fields.last())
        }
    }
}

/// `settings` with every key of `keys` that it lacks set to the empty string.
pub open spec fn seeded(settings: Map<Seq<char>, Seq<char>>, keys: Seq<Seq<char>>) -> Map<
    Seq<char>,
    Seq<char>,
>
    decreases keys.len(),
{
    if keys.len() == 0 {
        settings
    } else {
        let m = seeded(settings, keys.drop_last());
        if m.contains_key(keys.last()) {
            m
        } else {
            m.insert(keys.last(), Seq::empty())
        }
    }
}

/// The registry of the models the application offers.
pub struct ModelRegistry {
    models: Vec<ModelSpec>,
}

impl ModelRegistry {
    /// The registered models, in registration order.
    pub closed spec fn specs(&self) -> Seq<ModelSpec> {
        self.models@
    }

    /// The settings fields of all registered models, each key once: the
    /// field that comes first keeps it.
    pub open spec fn schema(&self) -> Seq<ConfigFieldV> {
        first_by_key(all_fields(self.specs()))
    }

    /// A registry with no models.
    pub fn new() -> (r: ModelRegistry)
        ensures
            r.specs() == Seq::<ModelSpec>::empty(),
    {
        ModelRegistry { models: Vec::new() }
    }

    /// Adds a model at the end.
    pub fn register(&mut self, model: ModelSpec)
        ensures
            final(self).specs() == old(self).specs().push(model),
    {
        self.models.push(model);
    }

    /// The registered models.
    pub fn models(&self) -> (r: &Vec<ModelSpec>)
        ensures
            r@ == self.specs(),
    {
        &self.models
    }

    /// Each model with its availability under `settings`.
    pub fn list(&self, settings: &Settings) -> (r: Vec<ModelInfo>)
        ensures
            r@.len() == self.specs().len(),
            forall|i: int|
                0 <= i < r@.len() ==> (#[trigger] r@[i]).id@ == self.specs()[i].model_id@
                    && r@[i].display_name@ == self.specs()[i].display_name@ && r@[i].is_available
                    == keys_available(
                    self.specs()[i].required_config_keys.deep_view(),
                    settings@,
                ),
    {
        let mut out: Vec<ModelInfo> = Vec::new();
        let mut i: usize = 0;
        while i < self.models.len()
            invariant
                i <= self.models@.len(),
                out@.len() == i,
                forall|k: int|
                    0 <= k < i ==> (#[trigger] out@[k]).id@ == self.models@[k].model_id@
                        && out@[k].display_name@ == self.models@[k].display_name@
                        && out@[k].is_available == keys_available(
                        self.models@[k].required_config_keys.deep_view(),
                        settings@,
                    ),
            decreases self.models@.len() - i,
        {
            let m = &self.models[i];
            out.push(
                ModelInfo {
                    id: m.model_id.clone(),
                    display_name: m.display_name.clone(),
                    is_available: is_available(&m.required_config_keys, settings),
                },
            );
            i = i + 1;
        }
        out
    }

    /// The settings fields of all models, each key once, in order of first
    /// appearance.
    pub fn config_schema(&self) -> (r: Vec<ConfigField>)
        ensures
            r.deep_view() == self.schema(),
    {
        let mut fields: Vec<ConfigField> = Vec::new();
        let mut i: usize = 0;
        let ghost seen: Seq<ConfigFieldV> = Seq::empty();
        while i < self.models.len()
            invariant
                i <= self.models@.len(),
                fields.deep_view() == first_by_key(seen),
                seen == all_fields(self.models@.take(i as int)),
            decreases self.models@.len() - i,
        {
            let m = &self.models[i];
            assert(self.models@.take(i + 1).drop_last() =~= self.models@.take(i as int));
            let mut j: usize = 0;
            while j < m.config_fields.len()
                invariant
                    j <= m.config_fields@.len(),
                    fields.deep_view() == first_by_key(
                        all_fields(self.models@.take(i as int)) + m.config_fields.deep_view().take(
                            j as int,
                        ),
                    ),
                decreases m.config_fields@.len() - j,
            {
                let f = &m.config_fields[j];
                let ghost prefix = all_fields(self.models@.take(i as int))
                    + m.config_fields.deep_view().take(j as int);
                let ghost next = all_fields(self.models@.take(i as int))
                    + m.config_fields.deep_view().take(j + 1);
                assert(next.drop_last() =~= prefix);
                assert(next.last() == f@);
                let mut present = false;
                let mut k: usize = 0;
                while k < fields.len()
                    invariant
                        k <= fields@.len(),
                        present == exists|q: int| 0 <= q < k && fields@[q].key@ == f.key@,
                    decreases fields@.len() - k,
                {
                    if str_eq(fields[k].key.as_str(), f.key.as_str()) {
                        present = true;
                    }
                    k = k + 1;
                }
                proof {
                    let fk = field_keys(fields.deep_view());
                    if present {
                        let q = choose|q: int| 0 <= q < fields@.len() && fields@[q].key@ == f.key@;
                        assert(fk[q] == f.key@);
                        assert(fk.contains(f.key@));
                    } else {
                        assert forall|q: int| 0 <= q < fk.len() implies fk[q] != f.key@ by {
                            assert(fk[q] == fields@[q].key@);
                        }
                        assert(!fk.contains(f.key@));
                    }
                }
                if !present {
                    fields.push(f.duplicate());
                    assert(fields.deep_view() =~= first_by_key(next));
                }
                j = j + 1;
            }
            assert(m.config_fields.deep_view().take(m.config_fields@.len() as int)
                =~= m.config_fields.deep_view());
            proof {
                seen = all_fields(self.models@.take(i + 1));
            }
            i = i + 1;
        }
        assert(self.models@.take(self.models@.len() as int) =~= self.models@);
        fields
    }

    /// Makes sure every key of the schema is present in `settings`, storing
    /// the empty string for the missing ones.
    pub fn seed_config(&self, settings: &mut Settings)
        ensures
            final(settings)@ == seeded(old(settings)@, field_keys(self.schema())),
    {
        let schema = self.config_schema();
        let mut i: usize = 0;
        while i < schema.len()
            invariant
                i <= schema@.len(),
                schema.deep_view() == self.schema(),
                settings@ == seeded(old(settings)@, field_keys(schema.deep_view()).take(i as int)),
            decreases schema@.len() - i,
        {
            let ghost ks = field_keys(schema.deep_view());
            assert(ks.take(i + 1).drop_last() =~= ks.take(i as int));
            assert(ks.take(i + 1).last() == schema@[i as int].key@);
            settings.entry_or_default(schema[i].key.clone());
            i = i + 1;
        }
        assert(field_keys(schema.deep_view()).take(schema@.len() as int) =~= field_keys(
            schema.deep_view(),
        ));
    }

    /// The position of the first model with the given id.
    pub fn get(&self, model_id: &str) -> (r: Option<usize>)
        ensures
            match r {
                Some(i) => i < self.specs().len() && self.specs()[i as int].model_id@ == model_id@
                    && forall|k: int| 0 <= k < i ==> self.specs()[k].model_id@ != model_id@,
                None => forall|k: int|
                    0 <= k < self.specs().len() ==> self.specs()[k].model_id@ != model_id@,
            },
    {
        let mut i: usize = 0;
        while i < self.models.len()
            invariant
                i <= self.models@.len(),
                forall|k: int| 0 <= k < i ==> self.models@[k].model_id@ != model_id@,
            decreases self.models@.len() - i,
        {
            if str_eq(self.models[i].model_id.as_str(), model_id) {
                return Some(i);
            }
            i = i + 1;
        }
        None
    }
}

} // verus!
