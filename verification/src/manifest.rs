//! The capability manifest: a declarative contract record for one external
//! tool, its JSON file encoding, and the compiled-in default manifests used
//! to bootstrap manifest files.

use vstd::prelude::*;
use crate::{BridgeError, BridgeResult};
use crate::json;

verus! {

/// Declared schema of one input field. The default value, when present, is
/// carried as its raw JSON text.
#[derive(Debug, Clone, PartialEq, Eq)]
pub struct InputSchema {
    pub type_tag: String,
    pub description: String,
    pub required: bool,
    pub default: Option<String>,
}

/// Declared schema of one output field.
#[derive(Debug, Clone, PartialEq, Eq)]
pub struct OutputSchema {
    pub type_tag: String,
    pub description: String,
}

/// Manifest structure for CLI tools. `name` is the registry key; field
/// mappings are kept as key/value pairs in insertion order.
#[derive(Debug, Clone, PartialEq, Eq)]
pub struct Manifest {
    pub name: String,
    pub version: String,
    pub description: String,
    pub language: String,
    pub entry_point: String,
    pub capabilities: Vec<String>,
    pub schema: Option<String>,
    pub timeout_sec: u64,
    pub requirements: Vec<(String, String)>,
    pub inputs: Vec<(String, InputSchema)>,
    pub outputs: Vec<(String, OutputSchema)>,
}

/// Mathematical form of an input schema.
#[verifier::ext_equal]
pub ghost struct InputSchemaV {
    pub type_tag: Seq<char>,
    pub description: Seq<char>,
    pub required: bool,
    pub default: Option<Seq<char>>,
}

/// Mathematical form of an output schema.
#[verifier::ext_equal]
pub ghost struct OutputSchemaV {
    pub type_tag: Seq<char>,
    pub description: Seq<char>,
}

/// Mathematical form of a manifest.
#[verifier::ext_equal]
pub ghost struct ManifestV {
    pub name: Seq<char>,
    pub version: Seq<char>,
    pub description: Seq<char>,
    pub language: Seq<char>,
    pub entry_point: Seq<char>,
    pub capabilities: Seq<Seq<char>>,
    pub schema: Option<Seq<char>>,
    pub timeout_sec: u64,
    pub requirements: Seq<(Seq<char>, Seq<char>)>,
    pub inputs: Seq<(Seq<char>, InputSchemaV)>,
    pub outputs: Seq<(Seq<char>, OutputSchemaV)>,
}

impl View for InputSchema {
    type V = InputSchemaV;

    open spec fn view(&self) -> InputSchemaV {
        InputSchemaV {
            type_tag: self.type_tag@,
            description: self.description@,
            required: self.required,
            default: match self.default {
                Some(d) => Some(d@),
                None => None,
            },
        }
    }
}

impl View for OutputSchema {
    type V = OutputSchemaV;

    open spec fn view(&self) -> OutputSchemaV {
        OutputSchemaV { type_tag: self.type_tag@, description: self.description@ }
    }
}

/// The view of a vector of named input schemas.
pub open spec fn inputs_view(v: Seq<(String, InputSchema)>) -> Seq<(Seq<char>, InputSchemaV)> {
    Seq::new(v.len(), |k: int| (v[k].0@, v[k].1@))
}

/// The view of a vector of named output schemas.
pub open spec fn outputs_view(v: Seq<(String, OutputSchema)>) -> Seq<(Seq<char>, OutputSchemaV)> {
    Seq::new(v.len(), |k: int| (v[k].0@, v[k].1@))
}

impl View for Manifest {
    type V = ManifestV;

    open spec fn view(&self) -> ManifestV {
        ManifestV {
            name: self.name@,
            version: self.version@,
            description: self.description@,
            language: self.language@,
            entry_point: self.entry_point@,
            capabilities: json::strings_view(self.capabilities@),
            schema: match self.schema {
                Some(s) => Some(s@),
                None => None,
            },
            timeout_sec: self.timeout_sec,
            requirements: json::pairs_view(self.requirements@),
            inputs: inputs_view(self.inputs@),
            outputs: outputs_view(self.outputs@),
        }
    }
}

/// A default value text is exactly one JSON value: scanned in full from
/// its first character, with nothing before or after it, and not the text
/// `null` (an absent default is `None`). Exactly these defaults can be
/// written to a manifest file and read back unchanged.
pub open spec fn spec_default_text_ok(raw: Seq<char>) -> bool {
    &&& json::fits_doc(raw)
    &&& json::spec_skip_value(raw, 0, json::doc_fuel(raw.len() as int) as nat) == Some(
        raw.len() as int,
    )
    &&& raw != "null"@
}

/// Whether an optional default text is absent or well-formed.
pub open spec fn default_opt_ok(d: Option<Seq<char>>) -> bool {
    match d {
        Some(raw) => spec_default_text_ok(raw),
        None => true,
    }
}

impl ManifestV {
    /// Every input default carries exactly one JSON value as text, so the
    /// manifest has a faithful file form.
    pub open spec fn wf(&self) -> bool {
        forall|k: int|
            0 <= k < self.inputs.len() ==> default_opt_ok((#[trigger] self.inputs[k]).1.default)
    }

    /// The requirement, input and output names are each unique keys.
    pub open spec fn keys_unique(&self) -> bool {
        &&& distinct_keys(self.requirements)
        &&& distinct_keys(self.inputs)
        &&& distinct_keys(self.outputs)
    }
}

/// No two entries share a key.
pub open spec fn distinct_keys<T>(s: Seq<(Seq<char>, T)>) -> bool {
    forall|i: int, j: int|
        0 <= i < j < s.len() ==> (#[trigger] s[i]).0 != (#[trigger] s[j]).0
}

fn collect_keys<T>(v: &Vec<(String, T)>) -> (r: Vec<String>)
    ensures
        r@.len() == v@.len(),
        forall|k: int| 0 <= k < v@.len() ==> r@[k]@ == (#[trigger] v@[k]).0@,
{
    let mut r: Vec<String> = Vec::new();
    let mut k: usize = 0;
    while k < v.len()
        invariant
            k <= v.len(),
            r@.len() == k,
            forall|j: int| 0 <= j < k ==> r@[j]@ == (#[trigger] v@[j]).0@,
        decreases v.len() - k,
    {
        r.push(v[k].0.clone());
        k += 1;
    }
    r
}

/// Key distinctness transfers between an entry list and its collected
/// key texts.
proof fn lemma_distinct_keys_bridge<T>(s: Seq<(Seq<char>, T)>, keys: Seq<String>)
    requires
        keys.len() == s.len(),
        forall|k: int| 0 <= k < s.len() ==> (#[trigger] s[k]).0 == keys[k]@,
    ensures
        distinct_keys(s) == (forall|i: int, j: int|
            0 <= i < j < keys.len() ==> (#[trigger] keys[i])@ != (#[trigger] keys[j])@),
{
    let kd = forall|i: int, j: int|
        0 <= i < j < keys.len() ==> (#[trigger] keys[i])@ != (#[trigger] keys[j])@;
    if kd {
        assert forall|i: int, j: int|
            0 <= i < j < s.len() implies (#[trigger] s[i]).0 != (#[trigger] s[j]).0 by {
            assert(s[i].0 == keys[i]@);
            assert(s[j].0 == keys[j]@);
            assert(keys[i]@ != keys[j]@);
        }
    } else {
        let (i, j) = choose|i: int, j: int|
            0 <= i < j < keys.len() && (#[trigger] keys[i])@ == (#[trigger] keys[j])@;
        assert(s[i].0 == s[j].0);
        assert(!distinct_keys(s));
    }
}

fn key_absent_from(keys: &Vec<String>, x: &String, k: usize) -> (r: bool)
    requires
        k <= keys.len(),
    ensures
        r == (forall|j: int| k <= j < keys@.len() ==> (#[trigger] keys@[j])@ != x@),
    decreases keys.len() - k,
{
    if k >= keys.len() {
        true
    } else {
        if keys[k] == *x {
            false
        } else {
            key_absent_from(keys, x, k + 1)
        }
    }
}

fn keys_distinct_from(keys: &Vec<String>, k: usize) -> (r: bool)
    requires
        k <= keys.len(),
    ensures
        r == (forall|i: int, j: int|
            k <= i < j < keys@.len() ==> (#[trigger] keys@[i])@ != (#[trigger] keys@[j])@),
    decreases keys.len() - k,
{
    if k >= keys.len() {
        true
    } else {
        if !key_absent_from(keys, &keys[k], k + 1) {
            false
        } else {
            keys_distinct_from(keys, k + 1)
        }
    }
}

/// Decides `spec_default_text_ok` for one text.
fn default_text_ok(raw: &String) -> (r: bool)
    ensures
        r == spec_default_text_ok(raw@),
{
    let chars = crate::strutil::str_to_chars(raw.as_str());
    if !json::text_fits(chars.len()) {
        return false;
    }
    let fuel: usize = 2 * chars.len() + 4;
    proof {
        assert(fuel as nat == json::doc_fuel(chars@.len() as int) as nat);
    }
    let scanned: bool = match json::skip_value(&chars, 0, fuel) {
        Some(j) => j == chars.len(),
        None => false,
    };
    let nulltext = crate::strutil::str_to_string("null");
    scanned && !(*raw == nulltext)
}

fn inputs_defaults_ok(v: &Vec<(String, InputSchema)>, k: usize) -> (r: bool)
    requires
        k <= v.len(),
    ensures
        r == (forall|j: int|
            k <= j < v@.len() ==> default_opt_ok((#[trigger] inputs_view(v@)[j]).1.default)),
    decreases v.len() - k,
{
    if k >= v.len() {
        true
    } else {
        let here: bool = match &v[k].1.default {
            Some(raw) => default_text_ok(raw),
            None => true,
        };
        if here {
            inputs_defaults_ok(v, k + 1)
        } else {
            assert(!default_opt_ok(inputs_view(v@)[k as int].1.default));
            false
        }
    }
}

/// Decides the manifest's well-formedness.
pub fn manifest_wf(m: &Manifest) -> (r: bool)
    ensures
        r == m@.wf(),
{
    inputs_defaults_ok(&m.inputs, 0)
}

/// Decides whether the manifest's requirement, input and output names are
/// each unique keys.
pub fn manifest_keys_unique(m: &Manifest) -> (r: bool)
    ensures
        r == m@.keys_unique(),
{
    let rk = collect_keys(&m.requirements);
    let ik = collect_keys(&m.inputs);
    let ok = collect_keys(&m.outputs);
    let r1 = keys_distinct_from(&rk, 0);
    let r2 = keys_distinct_from(&ik, 0);
    let r3 = keys_distinct_from(&ok, 0);
    proof {
        assert(forall|k: int|
            0 <= k < m@.requirements.len() ==> (#[trigger] m@.requirements[k]).0 == rk@[k]@);
        assert(forall|k: int| 0 <= k < m@.inputs.len() ==> (#[trigger] m@.inputs[k]).0 == ik@[k]@);
        assert(forall|k: int|
            0 <= k < m@.outputs.len() ==> (#[trigger] m@.outputs[k]).0 == ok@[k]@);
        lemma_distinct_keys_bridge(m@.requirements, rk@);
        lemma_distinct_keys_bridge(m@.inputs, ik@);
        lemma_distinct_keys_bridge(m@.outputs, ok@);
    }
    r1 && r2 && r3
}

/// The file text of one input schema record.
pub open spec fn spec_input_schema_text(v: InputSchemaV) -> Seq<char> {
    "{\"type\":"@ + json::spec_json_string(v.type_tag) + ",\"description\":"@
        + json::spec_json_string(v.description) + ",\"required\":"@ + (if v.required {
        "true"@
    } else {
        "false"@
    }) + ",\"default\":"@ + (match v.default {
        Some(raw) => raw,
        None => "null"@,
    }) + "}"@
}

/// The file text of one output schema record.
pub open spec fn spec_output_schema_text(v: OutputSchemaV) -> Seq<char> {
    "{\"type\":"@ + json::spec_json_string(v.type_tag) + ",\"description\":"@
        + json::spec_json_string(v.description) + "}"@
}

/// The members of the inputs object from index `i` on, each preceded by a
/// comma.
pub open spec fn inputs_rest_text(v: Seq<(Seq<char>, InputSchemaV)>, i: int) -> Seq<char>
    decreases v.len() - i,
{
    if i < 0 || i >= v.len() {
        Seq::empty()
    } else {
        seq![','] + json::spec_json_string(v[i].0) + seq![':'] + spec_input_schema_text(v[i].1)
            + inputs_rest_text(v, i + 1)
    }
}

/// The inputs object: input names mapped to their schema records.
pub open spec fn spec_inputs_text(v: Seq<(Seq<char>, InputSchemaV)>) -> Seq<char> {
    if v.len() == 0 {
        seq!['{', '}']
    } else {
        seq!['{'] + json::spec_json_string(v[0].0) + seq![':'] + spec_input_schema_text(v[0].1)
            + inputs_rest_text(v, 1) + seq!['}']
    }
}

/// The members of the outputs object from index `i` on, each preceded by a
/// comma.
pub open spec fn outputs_rest_text(v: Seq<(Seq<char>, OutputSchemaV)>, i: int) -> Seq<char>
    decreases v.len() - i,
{
    if i < 0 || i >= v.len() {
        Seq::empty()
    } else {
        seq![','] + json::spec_json_string(v[i].0) + seq![':'] + spec_output_schema_text(v[i].1)
            + outputs_rest_text(v, i + 1)
    }
}

/// The outputs object: output names mapped to their schema records.
pub open spec fn spec_outputs_text(v: Seq<(Seq<char>, OutputSchemaV)>) -> Seq<char> {
    if v.len() == 0 {
        seq!['{', '}']
    } else {
        seq!['{'] + json::spec_json_string(v[0].0) + seq![':'] + spec_output_schema_text(v[0].1)
            + outputs_rest_text(v, 1) + seq!['}']
    }
}

/// The whole manifest file text: one JSON object with the manifest's
/// fields in declaration order.
pub open spec fn spec_manifest_text(v: ManifestV) -> Seq<char> {
    "{\"name\":"@ + json::spec_json_string(v.name) + ",\"version\":"@ + json::spec_json_string(
        v.version,
    ) + ",\"description\":"@ + json::spec_json_string(v.description) + ",\"language\":"@
        + json::spec_json_string(v.language) + ",\"entry_point\":"@ + json::spec_json_string(
        v.entry_point,
    ) + ",\"capabilities\":"@ + json::spec_string_array_text(v.capabilities) + ",\"schema\":"@ + (
    match v.schema {
        Some(s) => json::spec_json_string(s),
        None => "null"@,
    }) + ",\"timeout_sec\":"@ + crate::strutil::u64_digits(v.timeout_sec) + ",\"requirements\":"@
        + json::spec_string_map_text(v.requirements) + ",\"inputs\":"@ + spec_inputs_text(v.inputs)
        + ",\"outputs\":"@ + spec_outputs_text(v.outputs) + "}"@
}

fn push_input_schema(s: &InputSchema, out: &mut Vec<char>)
    ensures
        final(out)@ == old(out)@ + spec_input_schema_text(s@),
{
    json::push_str_chars("{\"type\":", out);
    json::push_json_string(s.type_tag.as_str(), out);
    json::push_str_chars(",\"description\":", out);
    json::push_json_string(s.description.as_str(), out);
    json::push_str_chars(",\"required\":", out);
    if s.required {
        json::push_str_chars("true", out);
    } else {
        json::push_str_chars("false", out);
    }
    json::push_str_chars(",\"default\":", out);
    match &s.default {
        Some(raw) => json::push_str_chars(raw.as_str(), out),
        None => json::push_str_chars("null", out),
    };
    json::push_str_chars("}", out);
    assert(out@ =~= old(out)@ + spec_input_schema_text(s@));
}

fn push_inputs_rest(v: &Vec<(String, InputSchema)>, i: usize, out: &mut Vec<char>)
    requires
        i <= v.len(),
    ensures
        final(out)@ == old(out)@ + inputs_rest_text(inputs_view(v@), i as int),
    decreases v.len() - i,
{
    if i < v.len() {
        out.push(',');
        json::push_json_string(v[i].0.as_str(), out);
        out.push(':');
        push_input_schema(&v[i].1, out);
        push_inputs_rest(v, i + 1, out);
        assert(out@ =~= old(out)@ + inputs_rest_text(inputs_view(v@), i as int));
    } else {
        assert(out@ =~= old(out)@ + inputs_rest_text(inputs_view(v@), i as int));
    }
}

fn push_inputs(v: &Vec<(String, InputSchema)>, out: &mut Vec<char>)
    ensures
        final(out)@ == old(out)@ + spec_inputs_text(inputs_view(v@)),
{
    out.push('{');
    if v.len() > 0 {
        json::push_json_string(v[0].0.as_str(), out);
        out.push(':');
        push_input_schema(&v[0].1, out);
        push_inputs_rest(v, 1, out);
    }
    out.push('}');
    assert(out@ =~= old(out)@ + spec_inputs_text(inputs_view(v@)));
}

fn push_output_schema(s: &OutputSchema, out: &mut Vec<char>)
    ensures
        final(out)@ == old(out)@ + spec_output_schema_text(s@),
{
    json::push_str_chars("{\"type\":", out);
    json::push_json_string(s.type_tag.as_str(), out);
    json::push_str_chars(",\"description\":", out);
    json::push_json_string(s.description.as_str(), out);
    json::push_str_chars("}", out);
    assert(out@ =~= old(out)@ + spec_output_schema_text(s@));
}

fn push_outputs_rest(v: &Vec<(String, OutputSchema)>, i: usize, out: &mut Vec<char>)
    requires
        i <= v.len(),
    ensures
        final(out)@ == old(out)@ + outputs_rest_text(outputs_view(v@), i as int),
    decreases v.len() - i,
{
    if i < v.len() {
        out.push(',');
        json::push_json_string(v[i].0.as_str(), out);
        out.push(':');
        push_output_schema(&v[i].1, out);
        push_outputs_rest(v, i + 1, out);
        assert(out@ =~= old(out)@ + outputs_rest_text(outputs_view(v@), i as int));
    } else {
        assert(out@ =~= old(out)@ + outputs_rest_text(outputs_view(v@), i as int));
    }
}

fn push_outputs(v: &Vec<(String, OutputSchema)>, out: &mut Vec<char>)
    ensures
        final(out)@ == old(out)@ + spec_outputs_text(outputs_view(v@)),
{
    out.push('{');
    if v.len() > 0 {
        json::push_json_string(v[0].0.as_str(), out);
        out.push(':');
        push_output_schema(&v[0].1, out);
        push_outputs_rest(v, 1, out);
    }
    out.push('}');
    assert(out@ =~= old(out)@ + spec_outputs_text(outputs_view(v@)));
}

/// Serializes a manifest to its file text: one compact JSON object, no
/// indentation (the reader accepts whitespace-formatted text as well).
/// Writing the text to the manifest's file is the caller's step. The
/// well-formedness precondition keeps every written file loadable: a
/// default that is not one JSON value would corrupt the file.
pub fn manifest_to_json_text(m: &Manifest) -> (r: String)
    requires
        m@.wf(),
        m@.keys_unique(),
    ensures
        r@ == spec_manifest_text(m@),
{
    let mut out: Vec<char> = Vec::new();
    json::push_str_chars("{\"name\":", &mut out);
    json::push_json_string(m.name.as_str(), &mut out);
    json::push_str_chars(",\"version\":", &mut out);
    json::push_json_string(m.version.as_str(), &mut out);
    json::push_str_chars(",\"description\":", &mut out);
    json::push_json_string(m.description.as_str(), &mut out);
    json::push_str_chars(",\"language\":", &mut out);
    json::push_json_string(m.language.as_str(), &mut out);
    json::push_str_chars(",\"entry_point\":", &mut out);
    json::push_json_string(m.entry_point.as_str(), &mut out);
    json::push_str_chars(",\"capabilities\":", &mut out);
    json::push_string_array(&m.capabilities, &mut out);
    json::push_str_chars(",\"schema\":", &mut out);
    match &m.schema {
        Some(s) => json::push_json_string(s.as_str(), &mut out),
        None => json::push_str_chars("null", &mut out),
    };
    json::push_str_chars(",\"timeout_sec\":", &mut out);
    crate::strutil::push_u64_digits(m.timeout_sec, &mut out);
    json::push_str_chars(",\"requirements\":", &mut out);
    json::push_string_map(&m.requirements, &mut out);
    json::push_str_chars(",\"inputs\":", &mut out);
    push_inputs(&m.inputs, &mut out);
    json::push_str_chars(",\"outputs\":", &mut out);
    push_outputs(&m.outputs, &mut out);
    json::push_str_chars("}", &mut out);
    let r = crate::strutil::chars_to_string(&out);
    proof {
        assert(r@ =~= spec_manifest_text(m@));
    }
    r
}

/// The decoded default of an input schema: absent and `null` both mean no
/// default; any other well-formed value is kept as raw text, and a raw
/// text that is not one JSON value fails the record.
pub open spec fn spec_default_field(s: Seq<char>, sub: Seq<(Seq<char>, int, int)>) -> Option<
    Option<Seq<char>>,
> {
    match json::spec_get_raw(s, sub, "default"@) {
        None => Some(None),
        Some(raw) => if raw == "null"@ {
            Some(None)
        } else if spec_default_text_ok(raw) {
            Some(Some(raw))
        } else {
            None
        },
    }
}

/// One input schema record standing at the span `[vs, ve)`.
pub open spec fn spec_input_schema_at(s: Seq<char>, vs: int, ve: int) -> Option<InputSchemaV> {
    if 0 <= vs < s.len() && s[vs] == '{' {
        match json::spec_members(s, vs + 1, json::doc_fuel(s.len() as int) as nat, true, Seq::empty()) {
            Some((sub, j)) => if j == ve {
                match json::spec_get_string(s, sub, "type"@) {
                    Some(tag) => match json::spec_get_string(s, sub, "description"@) {
                        Some(desc) => match json::spec_get_bool(s, sub, "required"@) {
                            Some(req) => match spec_default_field(s, sub) {
                                Some(default) => Some(
                                    InputSchemaV {
                                        type_tag: tag,
                                        description: desc,
                                        required: req,
                                        default,
                                    },
                                ),
                                None => None,
                            },
                            None => None,
                        },
                        None => None,
                    },
                    None => None,
                }
            } else {
                None
            },
            None => None,
        }
    } else {
        None
    }
}

/// One output schema record standing at the span `[vs, ve)`.
pub open spec fn spec_output_schema_at(s: Seq<char>, vs: int, ve: int) -> Option<OutputSchemaV> {
    if 0 <= vs < s.len() && s[vs] == '{' {
        match json::spec_members(s, vs + 1, json::doc_fuel(s.len() as int) as nat, true, Seq::empty()) {
            Some((sub, j)) => if j == ve {
                match json::spec_get_string(s, sub, "type"@) {
                    Some(tag) => match json::spec_get_string(s, sub, "description"@) {
                        Some(desc) => Some(OutputSchemaV { type_tag: tag, description: desc }),
                        None => None,
                    },
                    None => None,
                }
            } else {
                None
            },
            None => None,
        }
    } else {
        None
    }
}

/// The named input schemas of the members from index `k` on.
pub open spec fn spec_inputs_from(
    s: Seq<char>,
    sub: Seq<(Seq<char>, int, int)>,
    k: int,
    acc: Seq<(Seq<char>, InputSchemaV)>,
) -> Option<Seq<(Seq<char>, InputSchemaV)>>
    decreases sub.len() - k,
{
    if k < 0 || k >= sub.len() {
        Some(acc)
    } else {
        match spec_input_schema_at(s, sub[k].1, sub[k].2) {
            Some(rec) => spec_inputs_from(s, sub, k + 1, acc.push((sub[k].0, rec))),
            None => None,
        }
    }
}

/// The named output schemas of the members from index `k` on.
pub open spec fn spec_outputs_from(
    s: Seq<char>,
    sub: Seq<(Seq<char>, int, int)>,
    k: int,
    acc: Seq<(Seq<char>, OutputSchemaV)>,
) -> Option<Seq<(Seq<char>, OutputSchemaV)>>
    decreases sub.len() - k,
{
    if k < 0 || k >= sub.len() {
        Some(acc)
    } else {
        match spec_output_schema_at(s, sub[k].1, sub[k].2) {
            Some(rec) => spec_outputs_from(s, sub, k + 1, acc.push((sub[k].0, rec))),
            None => None,
        }
    }
}

/// The optional `schema` reference: an absent member and `null` both mean
/// none; a non-string, non-null value is malformed.
pub open spec fn spec_schema_field(s: Seq<char>, ms: Seq<(Seq<char>, int, int)>) -> Option<
    Option<Seq<char>>,
> {
    if json::spec_find_member(ms, "schema"@, 0) is None {
        Some(None)
    } else {
        json::spec_get_opt_string(s, ms, "schema"@)
    }
}

/// The manifest carried by a whole file text, when every field is present
/// in its expected shape.
pub open spec fn spec_manifest_doc(text: Seq<char>) -> Option<ManifestV> {
    match json::spec_parse_doc(text) {
        Some(ms) => match json::spec_get_string(text, ms, "name"@) {
            Some(name) => match json::spec_get_string(text, ms, "version"@) {
                Some(version) => match json::spec_get_string(text, ms, "description"@) {
                    Some(description) => match json::spec_get_string(text, ms, "language"@) {
                        Some(language) => match json::spec_get_string(text, ms, "entry_point"@) {
                            Some(entry_point) => match json::spec_get_string_array(
                                text,
                                ms,
                                "capabilities"@,
                            ) {
                                Some(capabilities) => match spec_schema_field(text, ms) {
                                    Some(schema) => match json::spec_get_u64(
                                        text,
                                        ms,
                                        "timeout_sec"@,
                                    ) {
                                        Some(timeout_sec) => match json::spec_get_string_map(
                                            text,
                                            ms,
                                            "requirements"@,
                                        ) {
                                            Some(requirements) => match json::spec_get_object(
                                                text,
                                                ms,
                                                "inputs"@,
                                            ) {
                                                Some(isub) => match spec_inputs_from(
                                                    text,
                                                    isub,
                                                    0,
                                                    Seq::empty(),
                                                ) {
                                                    Some(inputs) => match json::spec_get_object(
                                                        text,
                                                        ms,
                                                        "outputs"@,
                                                    ) {
                                                        Some(osub) => match spec_outputs_from(
                                                            text,
                                                            osub,
                                                            0,
                                                            Seq::empty(),
                                                        ) {
                                                            Some(outputs) => Some(
                                                                ManifestV {
                                                                    name,
                                                                    version,
                                                                    description,
                                                                    language,
                                                                    entry_point,
                                                                    capabilities,
                                                                    schema,
                                                                    timeout_sec,
                                                                    requirements,
                                                                    inputs,
                                                                    outputs,
                                                                },
                                                            ),
                                                            None => None,
                                                        },
                                                        None => None,
                                                    },
                                                    None => None,
                                                },
                                                None => None,
                                            },
                                            None => None,
                                        },
                                        None => None,
                                    },
                                    None => None,
                                },
                                None => None,
                            },
                            None => None,
                        },
                        None => None,
                    },
                    None => None,
                },
                None => None,
            },
            None => None,
        },
        None => None,
    }
}

fn default_field(chars: &Vec<char>, sub: &Vec<(Vec<char>, usize, usize)>) -> (r: Option<
    Option<String>,
>)
    requires
        json::spans_ok(sub@, chars@.len() as int),
    ensures
        (match r {
            None => spec_default_field(chars@, json::members_view(sub@)) is None,
            Some(None) => spec_default_field(chars@, json::members_view(sub@)) == Some(
                None::<Seq<char>>,
            ),
            Some(Some(v)) => spec_default_field(chars@, json::members_view(sub@)) == Some(
                Some(v@),
            ),
        }),
{
    match json::get_raw(chars, sub, "default") {
        None => Some(None),
        Some(raw) => {
            let nulltext = crate::strutil::str_to_string("null");
            if raw == nulltext {
                Some(None)
            } else if default_text_ok(&raw) {
                Some(Some(raw))
            } else {
                None
            }
        },
    }
}

fn input_schema_at(chars: &Vec<char>, vs: usize, ve: usize) -> (r: Option<InputSchema>)
    requires
        json::fits_doc(chars@),
        vs <= ve <= chars@.len(),
    ensures
        (match r {
            None => spec_input_schema_at(chars@, vs as int, ve as int) is None,
            Some(rec) => spec_input_schema_at(chars@, vs as int, ve as int) == Some(rec@),
        }),
{
    if vs < chars.len() && chars[vs] == '{' {
        let fuel: usize = 2 * chars.len() + 4;
        proof {
            assert(fuel as nat == json::doc_fuel(chars@.len() as int) as nat);
        }
        let acc: Vec<(Vec<char>, usize, usize)> = Vec::new();
        proof {
            assert(json::members_view(acc@) =~= Seq::<(Seq<char>, int, int)>::empty());
        }
        match json::scan_members(chars, vs + 1, fuel, true, acc) {
            Some((sub, j)) => {
                if j == ve {
                    match json::get_string(chars, &sub, "type") {
                        Some(tag) => match json::get_string(chars, &sub, "description") {
                            Some(desc) => match json::get_bool(chars, &sub, "required") {
                                Some(req) => match default_field(chars, &sub) {
                                    Some(default) => Some(
                                        InputSchema {
                                            type_tag: tag,
                                            description: desc,
                                            required: req,
                                            default,
                                        },
                                    ),
                                    None => None,
                                },
                                None => None,
                            },
                            None => None,
                        },
                        None => None,
                    }
                } else {
                    None
                }
            },
            None => None,
        }
    } else {
        None
    }
}

fn output_schema_at(chars: &Vec<char>, vs: usize, ve: usize) -> (r: Option<OutputSchema>)
    requires
        json::fits_doc(chars@),
        vs <= ve <= chars@.len(),
    ensures
        (match r {
            None => spec_output_schema_at(chars@, vs as int, ve as int) is None,
            Some(rec) => spec_output_schema_at(chars@, vs as int, ve as int) == Some(rec@),
        }),
{
    if vs < chars.len() && chars[vs] == '{' {
        let fuel: usize = 2 * chars.len() + 4;
        proof {
            assert(fuel as nat == json::doc_fuel(chars@.len() as int) as nat);
        }
        let acc: Vec<(Vec<char>, usize, usize)> = Vec::new();
        proof {
            assert(json::members_view(acc@) =~= Seq::<(Seq<char>, int, int)>::empty());
        }
        match json::scan_members(chars, vs + 1, fuel, true, acc) {
            Some((sub, j)) => {
                if j == ve {
                    match json::get_string(chars, &sub, "type") {
                        Some(tag) => match json::get_string(chars, &sub, "description") {
                            Some(desc) => Some(OutputSchema { type_tag: tag, description: desc }),
                            None => None,
                        },
                        None => None,
                    }
                } else {
                    None
                }
            },
            None => None,
        }
    } else {
        None
    }
}

fn inputs_from(
    chars: &Vec<char>,
    sub: &Vec<(Vec<char>, usize, usize)>,
    k: usize,
    acc: Vec<(String, InputSchema)>,
) -> (r: Option<Vec<(String, InputSchema)>>)
    requires
        json::fits_doc(chars@),
        json::spans_ok(sub@, chars@.len() as int),
        k <= sub.len(),
    ensures
        (match r {
            None => spec_inputs_from(
                chars@,
                json::members_view(sub@),
                k as int,
                inputs_view(acc@),
            ) is None,
            Some(v) => spec_inputs_from(chars@, json::members_view(sub@), k as int, inputs_view(acc@))
                == Some(inputs_view(v@)),
        }),
    decreases sub.len() - k,
{
    if k >= sub.len() {
        Some(acc)
    } else {
        let vs = sub[k].1;
        let ve = sub[k].2;
        assert(sub@[k as int].1 <= sub@[k as int].2 && sub@[k as int].2 <= chars@.len());
        match input_schema_at(chars, vs, ve) {
            Some(rec) => {
                let mut acc2 = acc;
                let keystr = crate::strutil::chars_to_string(&sub[k].0);
                acc2.push((keystr, rec));
                proof {
                    assert(inputs_view(acc2@) =~= inputs_view(acc@).push(
                        (sub@[k as int].0@, acc2@.last().1@),
                    ));
                }
                inputs_from(chars, sub, k + 1, acc2)
            },
            None => None,
        }
    }
}

fn outputs_from(
    chars: &Vec<char>,
    sub: &Vec<(Vec<char>, usize, usize)>,
    k: usize,
    acc: Vec<(String, OutputSchema)>,
) -> (r: Option<Vec<(String, OutputSchema)>>)
    requires
        json::fits_doc(chars@),
        json::spans_ok(sub@, chars@.len() as int),
        k <= sub.len(),
    ensures
        (match r {
            None => spec_outputs_from(
                chars@,
                json::members_view(sub@),
                k as int,
                outputs_view(acc@),
            ) is None,
            Some(v) => spec_outputs_from(
                chars@,
                json::members_view(sub@),
                k as int,
                outputs_view(acc@),
            ) == Some(outputs_view(v@)),
        }),
    decreases sub.len() - k,
{
    if k >= sub.len() {
        Some(acc)
    } else {
        let vs = sub[k].1;
        let ve = sub[k].2;
        assert(sub@[k as int].1 <= sub@[k as int].2 && sub@[k as int].2 <= chars@.len());
        match output_schema_at(chars, vs, ve) {
            Some(rec) => {
                let mut acc2 = acc;
                let keystr = crate::strutil::chars_to_string(&sub[k].0);
                acc2.push((keystr, rec));
                proof {
                    assert(outputs_view(acc2@) =~= outputs_view(acc@).push(
                        (sub@[k as int].0@, acc2@.last().1@),
                    ));
                }
                outputs_from(chars, sub, k + 1, acc2)
            },
            None => None,
        }
    }
}

fn schema_field(chars: &Vec<char>, ms: &Vec<(Vec<char>, usize, usize)>) -> (r: Option<
    Option<String>,
>)
    requires
        json::spans_ok(ms@, chars@.len() as int),
    ensures
        (match r {
            None => spec_schema_field(chars@, json::members_view(ms@)) is None,
            Some(None) => spec_schema_field(chars@, json::members_view(ms@)) == Some(
                None::<Seq<char>>,
            ),
            Some(Some(v)) => spec_schema_field(chars@, json::members_view(ms@)) == Some(Some(v@)),
        }),
{
    if !json::has_member(ms, "schema") {
        Some(None)
    } else {
        json::get_opt_string(chars, ms, "schema")
    }
}

/// Every input schema the member loop accepts carries a well-formed
/// default.
proof fn lemma_inputs_from_wf(
    s: Seq<char>,
    sub: Seq<(Seq<char>, int, int)>,
    k: int,
    acc: Seq<(Seq<char>, InputSchemaV)>,
)
    requires
        forall|j: int| 0 <= j < acc.len() ==> default_opt_ok((#[trigger] acc[j]).1.default),
    ensures
        (match spec_inputs_from(s, sub, k, acc) {
            Some(v) => forall|j: int|
                0 <= j < v.len() ==> default_opt_ok((#[trigger] v[j]).1.default),
            None => true,
        }),
    decreases sub.len() - k,
{
    if 0 <= k < sub.len() {
        match spec_input_schema_at(s, sub[k].1, sub[k].2) {
            Some(rec) => {
                assert(default_opt_ok(rec.default));
                lemma_inputs_from_wf(s, sub, k + 1, acc.push((sub[k].0, rec)));
            },
            None => {},
        }
    }
}

/// Deserializes a manifest from its file text. Malformed content is a
/// `Json` failure; a loaded manifest is always well-formed. Reading the
/// file is the caller's step.
pub fn manifest_from_json_text(text: &str) -> (r: BridgeResult<Manifest>)
    requires
        json::spec_text_fits(text@.len() as int),
    ensures
        (match spec_manifest_doc(text@) {
            Some(v) => (r matches Ok(m) && m@ == v),
            None => (r matches Err(e) && (e matches BridgeError::Json(msg) && msg@
                == "malformed manifest"@)),
        }),
        (r matches Ok(m) ==> m@.wf()),
{
    let chars = crate::strutil::str_to_chars(text);
    match json::parse_doc(chars) {
        Some(doc) => {
            let name = json::get_string(&doc.chars, &doc.members, "name");
            let version = json::get_string(&doc.chars, &doc.members, "version");
            let description = json::get_string(&doc.chars, &doc.members, "description");
            let language = json::get_string(&doc.chars, &doc.members, "language");
            let entry_point = json::get_string(&doc.chars, &doc.members, "entry_point");
            let capabilities = json::get_string_array(&doc.chars, &doc.members, "capabilities");
            let schema = schema_field(&doc.chars, &doc.members);
            let timeout_sec = json::get_u64(&doc.chars, &doc.members, "timeout_sec");
            let requirements = json::get_string_map(&doc.chars, &doc.members, "requirements");
            match (name, version, description, language, entry_point) {
                (Some(name), Some(version), Some(description), Some(language), Some(entry_point)) => {
                    match (capabilities, schema, timeout_sec, requirements) {
                        (Some(capabilities), Some(schema), Some(timeout_sec), Some(requirements)) => {
                            match json::get_object(&doc.chars, &doc.members, "inputs") {
                                Some(isub) => {
                                    let iacc: Vec<(String, InputSchema)> = Vec::new();
                                    proof {
                                        assert(inputs_view(iacc@) =~= Seq::<
                                            (Seq<char>, InputSchemaV),
                                        >::empty());
                                    }
                                    match inputs_from(&doc.chars, &isub, 0, iacc) {
                                        Some(inputs) => {
                                            match json::get_object(&doc.chars, &doc.members, "outputs") {
                                                Some(osub) => {
                                                    let oacc: Vec<(String, OutputSchema)> =
                                                        Vec::new();
                                                    proof {
                                                        assert(outputs_view(oacc@) =~= Seq::<
                                                            (Seq<char>, OutputSchemaV),
                                                        >::empty());
                                                    }
                                                    match outputs_from(&doc.chars, &osub, 0, oacc) {
                                                        Some(outputs) => {
                                                            proof {
                                                                lemma_inputs_from_wf(
                                                                    doc.chars@,
                                                                    json::members_view(isub@),
                                                                    0,
                                                                    Seq::empty(),
                                                                );
                                                            }
                                                            Ok(
                                                            Manifest {
                                                                name,
                                                                version,
                                                                description,
                                                                language,
                                                                entry_point,
                                                                capabilities,
                                                                schema,
                                                                timeout_sec,
                                                                requirements,
                                                                inputs,
                                                                outputs,
                                                            },
                                                        )
                                                        },
                                                        None => Err(malformed_manifest()),
                                                    }
                                                },
                                                None => Err(malformed_manifest()),
                                            }
                                        },
                                        None => Err(malformed_manifest()),
                                    }
                                },
                                None => Err(malformed_manifest()),
                            }
                        },
                        _ => Err(malformed_manifest()),
                    }
                },
                _ => Err(malformed_manifest()),
            }
        },
        None => Err(malformed_manifest()),
    }
}

fn malformed_manifest() -> (r: BridgeError)
    ensures
        (r matches BridgeError::Json(msg) && msg@ == "malformed manifest"@),
{
    BridgeError::Json(crate::strutil::str_to_string("malformed manifest"))
}

/// The compiled-in default manifest for the codexify tool.
pub open spec fn spec_codexify_manifest() -> ManifestV {
    ManifestV {
        name: "codexify"@,
        version: "1.0.0"@,
        description: "Converts local files and memory logs into structured knowledge graph entries"@,
        language: "python"@,
        entry_point: "guardian-backend_v2/codexify/main.py"@,
        capabilities: seq!["fs:read"@, "fs:write"@, "memory:index"@, "llm"@],
        schema: Some("schemas/codexify.json"@),
        timeout_sec: 60,
        requirements: seq![
            ("python"@, ">=3.10"@),
            ("openai"@, "*"@),
            ("chromadb"@, "*"@),
            ("tiktoken"@, "*"@),
        ],
        inputs: seq![
            (
                "file_path"@,
                InputSchemaV {
                    type_tag: "string"@,
                    description: "Path to the file or folder to codexify"@,
                    required: true,
                    default: None,
                },
            ),
            (
                "tags"@,
                InputSchemaV {
                    type_tag: "array"@,
                    description: "Optional tags to associate with this node"@,
                    required: false,
                    default: Some("[]"@),
                },
            ),
        ],
        outputs: seq![
            (
                "node_id"@,
                OutputSchemaV {
                    type_tag: "string"@,
                    description: "ID of the created or updated Codex node"@,
                },
            ),
            (
                "summary"@,
                OutputSchemaV { type_tag: "string"@, description: "Summary of the codified input"@ },
            ),
        ],
    }
}

/// The compiled-in default manifest for the ritual_engine tool.
pub open spec fn spec_ritual_engine_manifest() -> ManifestV {
    ManifestV {
        name: "ritual_engine"@,
        version: "1.0.0"@,
        description: "Executes memory and ritual operations for ThreadSpace"@,
        language: "python"@,
        entry_point: "guardian-backend_v2/ritual_engine/main.py"@,
        capabilities: seq!["memory:process"@, "ritual:execute"@, "sync:memory"@],
        schema: Some("schemas/ritual_engine.json"@),
        timeout_sec: 120,
        requirements: seq![("python"@, ">=3.10"@), ("requests"@, "*"@), ("pyyaml"@, "*"@)],
        inputs: seq![
            (
                "ritual_type"@,
                InputSchemaV {
                    type_tag: "string"@,
                    description: "Type of ritual to perform"@,
                    required: true,
                    default: None,
                },
            ),
            (
                "parameters"@,
                InputSchemaV {
                    type_tag: "object"@,
                    description: "Parameters for the ritual"@,
                    required: true,
                    default: None,
                },
            ),
        ],
        outputs: seq![
            (
                "ritual_id"@,
                OutputSchemaV { type_tag: "string"@, description: "ID of the created ritual"@ },
            ),
            (
                "status"@,
                OutputSchemaV {
                    type_tag: "string"@,
                    description: "Status of the ritual execution"@,
                },
            ),
        ],
    }
}

fn owned(s: &str) -> (r: String)
    ensures
        r@ == s@,
{
    crate::strutil::str_to_string(s)
}

/// Generate the default manifest for codexify.
pub fn generate_codexify_manifest() -> (r: Manifest)
    ensures
        r@ == spec_codexify_manifest(),
{
    let mut capabilities: Vec<String> = Vec::new();
    capabilities.push(owned("fs:read"));
    capabilities.push(owned("fs:write"));
    capabilities.push(owned("memory:index"));
    capabilities.push(owned("llm"));
    let mut requirements: Vec<(String, String)> = Vec::new();
    requirements.push((owned("python"), owned(">=3.10")));
    requirements.push((owned("openai"), owned("*")));
    requirements.push((owned("chromadb"), owned("*")));
    requirements.push((owned("tiktoken"), owned("*")));
    let mut inputs: Vec<(String, InputSchema)> = Vec::new();
    inputs.push(
        (
            owned("file_path"),
            InputSchema {
                type_tag: owned("string"),
                description: owned("Path to the file or folder to codexify"),
                required: true,
                default: None,
            },
        ),
    );
    inputs.push(
        (
            owned("tags"),
            InputSchema {
                type_tag: owned("array"),
                description: owned("Optional tags to associate with this node"),
                required: false,
                default: Some(owned("[]")),
            },
        ),
    );
    let mut outputs: Vec<(String, OutputSchema)> = Vec::new();
    outputs.push(
        (
            owned("node_id"),
            OutputSchema {
                type_tag: owned("string"),
                description: owned("ID of the created or updated Codex node"),
            },
        ),
    );
    outputs.push(
        (
            owned("summary"),
            OutputSchema {
                type_tag: owned("string"),
                description: owned("Summary of the codified input"),
            },
        ),
    );
    let r = Manifest {
        name: owned("codexify"),
        version: owned("1.0.0"),
        description: owned("Converts local files and memory logs into structured knowledge graph entries"),
        language: owned("python"),
        entry_point: owned("guardian-backend_v2/codexify/main.py"),
        capabilities,
        schema: Some(owned("schemas/codexify.json")),
        timeout_sec: 60,
        requirements,
        inputs,
        outputs,
    };
    proof {
        assert(json::strings_view(r.capabilities@) =~= spec_codexify_manifest().capabilities);
        assert(json::pairs_view(r.requirements@) =~= spec_codexify_manifest().requirements);
        assert(inputs_view(r.inputs@) =~= spec_codexify_manifest().inputs);
        assert(outputs_view(r.outputs@) =~= spec_codexify_manifest().outputs);
        assert(r@ =~~= spec_codexify_manifest());
    }
    r
}

/// Generate the default manifest for ritual_engine.
pub fn generate_ritual_engine_manifest() -> (r: Manifest)
    ensures
        r@ == spec_ritual_engine_manifest(),
{
    let mut capabilities: Vec<String> = Vec::new();
    capabilities.push(owned("memory:process"));
    capabilities.push(owned("ritual:execute"));
    capabilities.push(owned("sync:memory"));
    let mut requirements: Vec<(String, String)> = Vec::new();
    requirements.push((owned("python"), owned(">=3.10")));
    requirements.push((owned("requests"), owned("*")));
    requirements.push((owned("pyyaml"), owned("*")));
    let mut inputs: Vec<(String, InputSchema)> = Vec::new();
    inputs.push(
        (
            owned("ritual_type"),
            InputSchema {
                type_tag: owned("string"),
                description: owned("Type of ritual to perform"),
                required: true,
                default: None,
            },
        ),
    );
    inputs.push(
        (
            owned("parameters"),
            InputSchema {
                type_tag: owned("object"),
                description: owned("Parameters for the ritual"),
                required: true,
                default: None,
            },
        ),
    );
    let mut outputs: Vec<(String, OutputSchema)> = Vec::new();
    outputs.push(
        (
            owned("ritual_id"),
            OutputSchema {
                type_tag: owned("string"),
                description: owned("ID of the created ritual"),
            },
        ),
    );
    outputs.push(
        (
            owned("status"),
            OutputSchema {
                type_tag: owned("string"),
                description: owned("Status of the ritual execution"),
            },
        ),
    );
    let r = Manifest {
        name: owned("ritual_engine"),
        version: owned("1.0.0"),
        description: owned("Executes memory and ritual operations for ThreadSpace"),
        language: owned("python"),
        entry_point: owned("guardian-backend_v2/ritual_engine/main.py"),
        capabilities,
        schema: Some(owned("schemas/ritual_engine.json")),
        timeout_sec: 120,
        requirements,
        inputs,
        outputs,
    };
    proof {
        assert(json::strings_view(r.capabilities@) =~= spec_ritual_engine_manifest().capabilities);
        assert(json::pairs_view(r.requirements@) =~= spec_ritual_engine_manifest().requirements);
        assert(inputs_view(r.inputs@) =~= spec_ritual_engine_manifest().inputs);
        assert(outputs_view(r.outputs@) =~= spec_ritual_engine_manifest().outputs);
        assert(r@ =~~= spec_ritual_engine_manifest());
    }
    r
}

/// Generate all default manifests, keyed by tool name.
pub fn generate_all_manifests() -> (r: Vec<(String, Manifest)>)
    ensures
        r@.len() == 2,
        r@[0].0@ == "codexify"@,
        r@[0].1@ == spec_codexify_manifest(),
        r@[1].0@ == "ritual_engine"@,
        r@[1].1@ == spec_ritual_engine_manifest(),
{
    let mut r: Vec<(String, Manifest)> = Vec::new();
    r.push((owned("codexify"), generate_codexify_manifest()));
    r.push((owned("ritual_engine"), generate_ritual_engine_manifest()));
    r
}

} // verus!
