use vstd::prelude::*;
use vstd::string::StrSliceExecFns;

use crate::formulae::OutdatedPackages;
use crate::formulae::Package;
use crate::formulae::PackageModel;
use crate::formulae::ReportModel;

verus! {

/// A structured JSON document, as the outside parser hands it over: null,
/// booleans, numbers (kept as their decimal text), strings, arrays and
/// objects (fields in the order the parser yields them).
pub enum JsonNode {
    Null,
    Bool(bool),
    Num(String),
    Str(String),
    Arr(Vec<JsonNode>),
    Obj(Vec<(String, JsonNode)>),
}

/// What the outside JSON parser yields for a document: its structured form,
/// or nothing when the document is malformed. A name only: the parse result
/// is a function of the text alone.
pub uninterp spec fn parsed_json(s: Seq<char>) -> Option<JsonNode>;

/// What the outside JSON printer yields for a structured document. A name
/// only: the printed text is a function of the document alone.
pub uninterp spec fn rendered_json(n: JsonNode) -> Seq<char>;

#[verifier::external_type_specification]
#[verifier::external_body]
pub struct ExValue(serde_json::Value);

/// Relies on serde_json::Value: one arm per variant, moving the contents
/// into the library's structured form; numbers keep their decimal text.
#[verifier::external_body]
fn node_of_value(v: &serde_json::Value) -> JsonNode {
    match v {
        serde_json::Value::Null => JsonNode::Null,
        serde_json::Value::Bool(b) => JsonNode::Bool(*b),
        serde_json::Value::Number(n) => JsonNode::Num(n.to_string()),
        serde_json::Value::String(s) => JsonNode::Str(s.clone()),
        serde_json::Value::Array(a) => JsonNode::Arr(a.iter().map(node_of_value).collect()),
        serde_json::Value::Object(m) => JsonNode::Obj(
            m.iter().map(|p| (p.0.clone(), node_of_value(p.1))).collect(),
        ),
    }
}

/// Relies on serde_json::from_str: deterministic in the text alone; a
/// well-formed document within the parser's nesting bound parses, anything
/// else is an error value, never a panic.
#[verifier::external_body]
fn parse_json(s: &str) -> (r: Option<JsonNode>)
    ensures
        r == parsed_json(s@),
{
    match serde_json::from_str::<serde_json::Value>(s) {
        Ok(v) => Some(node_of_value(&v)),
        Err(_) => None,
    }
}

/// Relies on serde_json::Value and serde_json::Number's text parser: one arm
/// per variant, moving the contents back; a number text that no longer
/// parses becomes null.
#[verifier::external_body]
fn value_of_node(n: &JsonNode) -> serde_json::Value {
    match n {
        JsonNode::Null => serde_json::Value::Null,
        JsonNode::Bool(b) => serde_json::Value::Bool(*b),
        JsonNode::Num(s) => s.parse::<serde_json::Number>().map(
            serde_json::Value::Number,
        ).unwrap_or(serde_json::Value::Null),
        JsonNode::Str(s) => serde_json::Value::String(s.clone()),
        JsonNode::Arr(a) => serde_json::Value::Array(a.iter().map(value_of_node).collect()),
        JsonNode::Obj(m) => serde_json::Value::Object(
            m.iter().map(|p| (p.0.clone(), value_of_node(&p.1))).collect(),
        ),
    }
}

/// Relies on serde_json::to_string: printing a JSON value is deterministic
/// in the value (and cannot fail on a value built from these nodes).
#[verifier::external_body]
fn json_to_string(n: &JsonNode) -> (r: String)
    ensures
        r@ == rendered_json(*n),
{
    serde_json::to_string(&value_of_node(n)).unwrap_or_default()
}

/// The value under `key`: the first field with that name, if the object has
/// one. Fields under any other name are ignored.
pub open spec fn lookup_spec(fields: Seq<(String, JsonNode)>, key: Seq<char>) -> Option<JsonNode>
    decreases fields.len(),
{
    if fields.len() == 0 {
        None
    } else if fields[0].0@ == key {
        Some(fields[0].1)
    } else {
        lookup_spec(fields.drop_first(), key)
    }
}

/// Every element of the array is a JSON string.
pub open spec fn all_strings(items: Seq<JsonNode>) -> bool {
    forall|i: int| 0 <= i < items.len() ==> items[i] is Str
}

/// The text of a JSON string node.
pub open spec fn str_of(n: JsonNode) -> Seq<char> {
    match n {
        JsonNode::Str(s) => s@,
        _ => Seq::empty(),
    }
}

/// The version strings of an all-string array, in order; nothing when any
/// element is not a string.
pub open spec fn strings_of_nodes(items: Seq<JsonNode>) -> Option<Seq<Seq<char>>> {
    if all_strings(items) {
        Some(Seq::new(items.len(), |i: int| str_of(items[i])))
    } else {
        None
    }
}

/// The pinned version an optional field decodes to: an absent or null field
/// is an absent pin version, a string is a present one, and any other shape
/// is malformed.
pub open spec fn pinned_version_of(o: Option<JsonNode>) -> Option<Option<Seq<char>>> {
    match o {
        None => Some(None),
        Some(JsonNode::Null) => Some(None),
        Some(JsonNode::Str(s)) => Some(Some(s@)),
        Some(_) => None,
    }
}

/// The package one object decodes to. The name, installed_versions,
/// current_version and pinned fields are required with exactly these shapes;
/// pinned_version may be absent; unknown fields are ignored. Anything else
/// is malformed, as is a record that breaks the package invariant: an empty
/// name, a pinned package without a present, non-empty pin version, or an
/// unpinned package that carries one.
pub open spec fn package_of_node(n: JsonNode) -> Option<PackageModel> {
    match n {
        JsonNode::Obj(fields) => {
            match (
                lookup_spec(fields@, "name"@),
                lookup_spec(fields@, "installed_versions"@),
                lookup_spec(fields@, "current_version"@),
                lookup_spec(fields@, "pinned"@),
            ) {
                (
                    Some(JsonNode::Str(name)),
                    Some(JsonNode::Arr(iv)),
                    Some(JsonNode::Str(cv)),
                    Some(JsonNode::Bool(p)),
                ) => {
                    match (
                        strings_of_nodes(iv@),
                        pinned_version_of(lookup_spec(fields@, "pinned_version"@)),
                    ) {
                        (Some(ivs), Some(pv)) => ({
                            let m = PackageModel {
                                name: name@,
                                installed_versions: ivs,
                                current_version: cv@,
                                pinned: p,
                                pinned_version: pv,
                            };
                            if m.wf() {
                                Some(m)
                            } else {
                                None
                            }
                        }),
                        _ => None,
                    }
                },
                _ => None,
            }
        },
        _ => None,
    }
}

/// Every element of the array decodes to a package.
pub open spec fn all_packages_ok(items: Seq<JsonNode>) -> bool {
    forall|i: int| 0 <= i < items.len() ==> package_of_node(items[i]) is Some
}

/// The packages of an array, in order; nothing when any element is
/// malformed.
pub open spec fn packages_of_nodes(items: Seq<JsonNode>) -> Option<Seq<PackageModel>> {
    if all_packages_ok(items) {
        Some(Seq::new(items.len(), |i: int| package_of_node(items[i]).unwrap()))
    } else {
        None
    }
}

/// The report a document decodes to: an object with the two required lists,
/// formulae and casks, each an array of packages, kept in order. Unknown
/// fields are ignored; any other shape is malformed.
pub open spec fn report_of_node(n: JsonNode) -> Option<ReportModel> {
    match n {
        JsonNode::Obj(fields) => {
            match (lookup_spec(fields@, "formulae"@), lookup_spec(fields@, "casks"@)) {
                (Some(JsonNode::Arr(fs)), Some(JsonNode::Arr(cs))) => {
                    match (packages_of_nodes(fs@), packages_of_nodes(cs@)) {
                        (Some(f), Some(c)) => Some(ReportModel { formulae: f, casks: c }),
                        _ => None,
                    }
                },
                _ => None,
            }
        },
        _ => None,
    }
}

/// The decode of a whole document: the outside parse, then the structure.
pub open spec fn decoded_report(s: Seq<char>) -> Option<ReportModel> {
    match parsed_json(s) {
        Some(n) => report_of_node(n),
        None => None,
    }
}

fn str_eq(a: &str, b: &str) -> (r: bool)
    ensures
        r == (a@ == b@),
{
    let n = a.unicode_len();
    if n != b.unicode_len() {
        return false;
    }
    let mut i: usize = 0;
    while i < n
        invariant
            n == a@.len(),
            n == b@.len(),
            i <= n,
            forall|k: int| 0 <= k < i ==> a@[k] == b@[k],
        decreases n - i,
    {
        if a.get_char(i) != b.get_char(i) {
            return false;
        }
        i = i + 1;
    }
    proof {
        assert(a@ =~= b@);
    }
    true
}

proof fn lemma_lookup_skip(fields: Seq<(String, JsonNode)>, key: Seq<char>, i: int)
    requires
        0 <= i <= fields.len(),
        forall|k: int| 0 <= k < i ==> fields[k].0@ != key,
    ensures
        lookup_spec(fields, key) == lookup_spec(fields.skip(i), key),
    decreases i,
{
    if i > 0 {
        assert(fields.skip(0) =~= fields);
        lemma_lookup_skip(fields, key, i - 1);
        assert(fields.skip(i - 1).drop_first() =~= fields.skip(i));
        assert(fields.skip(i - 1)[0] == fields[i - 1]);
    } else {
        assert(fields.skip(0) =~= fields);
    }
}

fn lookup<'a>(fields: &'a Vec<(String, JsonNode)>, key: &str) -> (r: Option<&'a JsonNode>)
    ensures
        match r {
            Some(n) => lookup_spec(fields@, key@) == Some(*n),
            None => lookup_spec(fields@, key@) is None,
        },
{
    let mut i: usize = 0;
    while i < fields.len()
        invariant
            i <= fields@.len(),
            forall|k: int| 0 <= k < i ==> fields@[k].0@ != key@,
        decreases fields@.len() - i,
    {
        if str_eq(fields[i].0.as_str(), key) {
            proof {
                lemma_lookup_skip(fields@, key@, i as int);
                assert(fields@.skip(i as int)[0] == fields@[i as int]);
            }
            return Some(&fields[i].1);
        }
        i = i + 1;
    }
    proof {
        lemma_lookup_skip(fields@, key@, fields@.len() as int);
        assert(fields@.skip(fields@.len() as int) =~= Seq::<(String, JsonNode)>::empty());
    }
    None
}

fn strings_of(items: &Vec<JsonNode>) -> (r: Option<Vec<String>>)
    ensures
        match r {
            Some(v) => strings_of_nodes(items@) == Some(v.deep_view()),
            None => strings_of_nodes(items@) is None,
        },
{
    let mut out: Vec<String> = Vec::new();
    let mut i: usize = 0;
    while i < items.len()
        invariant
            i <= items@.len(),
            out@.len() == i,
            forall|k: int| 0 <= k < i ==> items@[k] is Str && out@[k]@ == str_of(items@[k]),
        decreases items@.len() - i,
    {
        match &items[i] {
            JsonNode::Str(s) => out.push(s.clone()),
            _ => {
                proof {
                    assert(!all_strings(items@));
                }
                return None;
            },
        }
        i = i + 1;
    }
    proof {
        assert(all_strings(items@));
        assert(out.deep_view() =~= Seq::new(items@.len(), |k: int| str_of(items@[k])));
    }
    Some(out)
}

fn decode_package(n: &JsonNode) -> (r: Option<Package>)
    ensures
        match r {
            Some(p) => package_of_node(*n) == Some(p@),
            None => package_of_node(*n) is None,
        },
{
    let fields = match n {
        JsonNode::Obj(fields) => fields,
        _ => {
            return None;
        },
    };
    let name = match lookup(fields, "name") {
        Some(JsonNode::Str(s)) => s.clone(),
        _ => {
            return None;
        },
    };
    let installed_versions = match lookup(fields, "installed_versions") {
        Some(JsonNode::Arr(items)) => match strings_of(items) {
            Some(v) => v,
            None => {
                return None;
            },
        },
        _ => {
            return None;
        },
    };
    let current_version = match lookup(fields, "current_version") {
        Some(JsonNode::Str(s)) => s.clone(),
        _ => {
            return None;
        },
    };
    let pinned = match lookup(fields, "pinned") {
        Some(JsonNode::Bool(b)) => *b,
        _ => {
            return None;
        },
    };
    let pinned_version = match lookup(fields, "pinned_version") {
        None => None,
        Some(JsonNode::Null) => None,
        Some(JsonNode::Str(s)) => Some(s.clone()),
        Some(_) => {
            return None;
        },
    };
    if name.as_str().is_empty() {
        return None;
    }
    if pinned {
        match &pinned_version {
            Some(v) => {
                if v.as_str().is_empty() {
                    return None;
                }
            },
            None => {
                return None;
            },
        }
    } else {
        match &pinned_version {
            Some(_) => {
                return None;
            },
            None => {},
        }
    }
    Some(Package { name, installed_versions, current_version, pinned, pinned_version })
}

/// Decodes one structured document into the outdated report: exactly the
/// documents `report_of_node` accepts decode, to exactly that report.
pub fn decode_report(n: &JsonNode) -> (r: Option<OutdatedPackages>)
    ensures
        match r {
            Some(rep) => report_of_node(*n) == Some(rep@),
            None => report_of_node(*n) is None,
        },
{
    let fields = match n {
        JsonNode::Obj(fields) => fields,
        _ => {
            return None;
        },
    };
    let formulae = match lookup(fields, "formulae") {
        Some(JsonNode::Arr(items)) => match decode_packages(items) {
            Some(v) => v,
            None => {
                return None;
            },
        },
        _ => {
            return None;
        },
    };
    let casks = match lookup(fields, "casks") {
        Some(JsonNode::Arr(items)) => match decode_packages(items) {
            Some(v) => v,
            None => {
                return None;
            },
        },
        _ => {
            return None;
        },
    };
    Some(OutdatedPackages { formulae, casks })
}

fn decode_packages(items: &Vec<JsonNode>) -> (r: Option<Vec<Package>>)
    ensures
        match r {
            Some(v) => packages_of_nodes(items@) == Some(v.deep_view()),
            None => packages_of_nodes(items@) is None,
        },
{
    let mut out: Vec<Package> = Vec::new();
    let mut i: usize = 0;
    while i < items.len()
        invariant
            i <= items@.len(),
            out@.len() == i,
            forall|k: int|
                0 <= k < i ==> package_of_node(items@[k]) == Some(out@[k]@),
        decreases items@.len() - i,
    {
        match decode_package(&items[i]) {
            Some(p) => out.push(p),
            None => {
                proof {
                    assert(!all_packages_ok(items@));
                }
                return None;
            },
        }
        i = i + 1;
    }
    proof {
        assert(all_packages_ok(items@));
        assert(out.deep_view() =~= Seq::new(
            items@.len(),
            |k: int| package_of_node(items@[k]).unwrap(),
        ));
    }
    Some(out)
}

/// Decodes the tool's outdated output: hands the text to the outside JSON
/// parser and structures the result. The decoder is faithful: the order of
/// both lists is preserved and duplicates are kept.
pub fn decode_outdated(s: &str) -> (r: Option<OutdatedPackages>)
    ensures
        match r {
            Some(rep) => decoded_report(s@) == Some(rep@),
            None => decoded_report(s@) is None,
        },
{
    match parse_json(s) {
        Some(n) => decode_report(&n),
        None => None,
    }
}

fn encode_package(p: &Package) -> (n: JsonNode)
    requires
        p@.wf(),
    ensures
        package_of_node(n) == Some(p@),
{
    let mut iv: Vec<JsonNode> = Vec::new();
    let mut i: usize = 0;
    while i < p.installed_versions.len()
        invariant
            i <= p.installed_versions@.len(),
            iv@.len() == i,
            forall|k: int|
                0 <= k < i ==> iv@[k] is Str && str_of(iv@[k])
                    == p.installed_versions@[k]@,
        decreases p.installed_versions@.len() - i,
    {
        iv.push(JsonNode::Str(p.installed_versions[i].clone()));
        i = i + 1;
    }
    let mut fields: Vec<(String, JsonNode)> = Vec::new();
    fields.push((String::from_str("name"), JsonNode::Str(p.name.clone())));
    fields.push((String::from_str("installed_versions"), JsonNode::Arr(iv)));
    fields.push((String::from_str("current_version"), JsonNode::Str(p.current_version.clone())));
    fields.push((String::from_str("pinned"), JsonNode::Bool(p.pinned)));
    match &p.pinned_version {
        None => fields.push((String::from_str("pinned_version"), JsonNode::Null)),
        Some(v) => fields.push((String::from_str("pinned_version"), JsonNode::Str(v.clone()))),
    }
    let n = JsonNode::Obj(fields);
    proof {
        reveal_strlit("name");
        reveal_strlit("installed_versions");
        reveal_strlit("current_version");
        reveal_strlit("pinned");
        reveal_strlit("pinned_version");
        reveal_with_fuel(lookup_spec, 7);
        let fs = fields@;
        let t1 = fs.drop_first();
        let t2 = t1.drop_first();
        let t3 = t2.drop_first();
        let t4 = t3.drop_first();
        assert(t1.len() == 4 && t1[0] == fs[1] && t1[1] == fs[2] && t1[2] == fs[3] && t1[3]
            == fs[4]);
        assert(t2.len() == 3 && t2[0] == fs[2] && t2[1] == fs[3] && t2[2] == fs[4]);
        assert(t3.len() == 2 && t3[0] == fs[3] && t3[1] == fs[4]);
        assert(t4.len() == 1 && t4[0] == fs[4]);
        assert("name"@.len() == 4);
        assert("installed_versions"@.len() == 18);
        assert("current_version"@.len() == 15);
        assert("pinned"@.len() == 6);
        assert("pinned_version"@.len() == 14);
        assert(lookup_spec(fs, "name"@) == Some(fs[0].1));
        assert(lookup_spec(fs, "installed_versions"@) == lookup_spec(t1, "installed_versions"@));
        assert(lookup_spec(fs, "installed_versions"@) == Some(fs[1].1));
        assert(lookup_spec(fs, "current_version"@) == lookup_spec(t1, "current_version"@));
        assert(lookup_spec(t1, "current_version"@) == lookup_spec(t2, "current_version"@));
        assert(lookup_spec(fs, "current_version"@) == Some(fs[2].1));
        assert(lookup_spec(t2, "pinned"@) == lookup_spec(t3, "pinned"@));
        assert(lookup_spec(fs, "pinned"@) == Some(fs[3].1));
        assert(lookup_spec(t3, "pinned_version"@) == lookup_spec(t4, "pinned_version"@));
        assert(lookup_spec(fs, "pinned_version"@) == Some(fs[4].1));
        let items = fs[1].1->Arr_0;
        assert(all_strings(items@));
        assert(Seq::new(items@.len(), |k: int| str_of(items@[k]))
            =~= p.installed_versions.deep_view());
        match package_of_node(n) {
            Some(m) => {
                assert(m.installed_versions == p@.installed_versions);
                assert(m == p@);
            },
            None => {
                assert(false);
            },
        }
    }
    n
}

/// Builds the structured document for a report of well-formed records: one
/// object per package with exactly the five package fields, the lists under
/// "formulae" and "casks". The document decodes back to the very report it
/// was built from: encoding loses nothing.
pub fn encode_report(rep: &OutdatedPackages) -> (n: JsonNode)
    requires
        rep@.wf(),
    ensures
        report_of_node(n) == Some(rep@),
{
    let mut fs: Vec<JsonNode> = Vec::new();
    let mut i: usize = 0;
    while i < rep.formulae.len()
        invariant
            rep@.wf(),
            i <= rep.formulae@.len(),
            fs@.len() == i,
            forall|k: int| 0 <= k < i ==> package_of_node(fs@[k]) == Some(rep@.formulae[k]),
        decreases rep.formulae@.len() - i,
    {
        proof {
            assert(rep@.formulae[i as int].wf());
        }
        fs.push(encode_package(&rep.formulae[i]));
        i = i + 1;
    }
    let mut cs: Vec<JsonNode> = Vec::new();
    let mut j: usize = 0;
    while j < rep.casks.len()
        invariant
            rep@.wf(),
            j <= rep.casks@.len(),
            cs@.len() == j,
            forall|k: int| 0 <= k < j ==> package_of_node(cs@[k]) == Some(rep@.casks[k]),
        decreases rep.casks@.len() - j,
    {
        proof {
            assert(rep@.casks[j as int].wf());
        }
        cs.push(encode_package(&rep.casks[j]));
        j = j + 1;
    }
    proof {
        assert(all_packages_ok(fs@));
        assert(all_packages_ok(cs@));
        assert(Seq::new(fs@.len(), |k: int| package_of_node(fs@[k]).unwrap())
            =~= rep@.formulae);
        assert(Seq::new(cs@.len(), |k: int| package_of_node(cs@[k]).unwrap()) =~= rep@.casks);
    }
    let mut fields: Vec<(String, JsonNode)> = Vec::new();
    fields.push((String::from_str("formulae"), JsonNode::Arr(fs)));
    fields.push((String::from_str("casks"), JsonNode::Arr(cs)));
    let n = JsonNode::Obj(fields);
    proof {
        reveal_strlit("formulae");
        reveal_strlit("casks");
        reveal_with_fuel(lookup_spec, 4);
        let fl = fields@;
        let u1 = fl.drop_first();
        assert(u1.len() == 1 && u1[0] == fl[1]);
        assert("formulae"@.len() == 8);
        assert("casks"@.len() == 5);
        assert(lookup_spec(fl, "formulae"@) == Some(fl[0].1));
        assert(lookup_spec(fl, "casks"@) == lookup_spec(u1, "casks"@));
        assert(lookup_spec(fl, "casks"@) == Some(fl[1].1));
        match report_of_node(n) {
            Some(m) => {
                assert(m == rep@);
            },
            None => {
                assert(false);
            },
        }
    }
    n
}

/// Round trip: a structured document that carries a report, as
/// `encode_report` builds one, decodes to that report and no other. Every
/// package name, the order of the installed versions, every current
/// version, pin flag and pinned version come back unchanged.
pub proof fn lemma_encode_decode_preserves(n: JsonNode, rep: ReportModel, back: ReportModel)
    requires
        report_of_node(n) == Some(rep),
        report_of_node(n) == Some(back),
    ensures
        back == rep,
{
}

/// Every package of a decoded report satisfies the record invariant: the
/// decoder rejects any document that breaks it, so whatever it hands out is
/// well-formed.
pub proof fn lemma_decoded_report_wf(n: JsonNode, m: ReportModel)
    requires
        report_of_node(n) == Some(m),
    ensures
        m.wf(),
{
    match n {
        JsonNode::Obj(fields) => {
            match (lookup_spec(fields@, "formulae"@), lookup_spec(fields@, "casks"@)) {
                (Some(JsonNode::Arr(fs)), Some(JsonNode::Arr(cs))) => {
                    assert(all_packages_ok(fs@));
                    assert(all_packages_ok(cs@));
                    assert forall|i: int| 0 <= i < m.formulae.len() implies #[trigger] m.formulae[i].wf() by {
                        assert(package_of_node(fs@[i]) is Some);
                        assert(m.formulae[i] == package_of_node(fs@[i]).unwrap());
                    }
                    assert forall|i: int| 0 <= i < m.casks.len() implies #[trigger] m.casks[i].wf() by {
                        assert(package_of_node(cs@[i]) is Some);
                        assert(m.casks[i] == package_of_node(cs@[i]).unwrap());
                    }
                },
                _ => {
                    assert(false);
                },
            }
        },
        _ => {
            assert(false);
        },
    }
}

impl OutdatedPackages {
    /// The report printed as a JSON document by the outside printer. The
    /// structured document handed to the printer decodes back to this very
    /// report; the spelling of the text is the printer's.
    pub fn to_json(&self) -> (r: String)
        requires
            self@.wf(),
        ensures
            exists|n: JsonNode| report_of_node(n) == Some(self@) && r@ == rendered_json(n),
    {
        let n = encode_report(self);
        let r = json_to_string(&n);
        proof {
            assert(report_of_node(n) == Some(self@) && r@ == rendered_json(n));
        }
        r
    }
}

} // verus!
