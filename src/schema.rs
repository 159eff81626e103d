//! The schema resolver: exact lookup and prefix search of the control API's
//! paths in its YAML description.

use vstd::prelude::*;
use yaml_rust::Yaml;
use crate::request::strings_view;
use crate::text::{has_prefix, is_prefix_of};

verus! {

#[verifier::external_type_specification]
#[verifier::external_body]
pub struct ExYaml(yaml_rust::Yaml);

/// The control API's description, in YAML: the `paths` mapping declares
/// every control-API path and its shape.
pub const SCHEMA_DOCUMENT: &'static str = "openapi: 3.0.0
info:
  title: NGINX Unit control API
paths:
  /certificates:
    get:
      summary: Retrieve all certificate bundles
  /certificates/{bundleName}:
    get:
      summary: Retrieve a certificate bundle
    put:
      summary: Upload a certificate bundle
    delete:
      summary: Delete a certificate bundle
  /config:
    get:
      summary: Retrieve the config
    put:
      summary: Replace the config
    delete:
      summary: Delete the config
  /config/listeners:
    get:
      summary: Retrieve all listeners
    put:
      summary: Replace all listeners
  /config/applications:
    get:
      summary: Retrieve all applications
  /status:
    get:
      summary: Retrieve usage statistics
";

/// Where the human-readable API description is published.
pub const SCHEMA_DOCS_URL: &'static str = "https://github.com/nginx/unit/blob/master/docs/unit-openapi.yaml";

/// The documents that `YamlLoader::load_from_str` makes of a text, or `None`
/// where it reports a scan error.
pub uninterp spec fn yaml_documents_of(text: Seq<char>) -> Option<Seq<Yaml>>;

/// What indexing a YAML node by a string key yields: the value of that
/// string key where the node is a mapping that has it, else `None`.
pub uninterp spec fn yaml_field_of(node: Yaml, key: Seq<char>) -> Option<Yaml>;

/// The keys of a YAML mapping in insertion order, or `None` for a node that
/// is no mapping.
pub uninterp spec fn yaml_keys_of(node: Yaml) -> Option<Seq<Yaml>>;

/// The text of a YAML string node, `None` for any other node.
pub uninterp spec fn yaml_str_of(node: Yaml) -> Option<Seq<char>>;

/// The YAML text that `YamlEmitter::dump` writes for a node, or `None`
/// where it reports an error.
pub uninterp spec fn yaml_text_of(node: Yaml) -> Option<Seq<char>>;

/// The path component of a URI as `http::Uri` parses it, or the message of
/// its parse error.
pub uninterp spec fn uri_path_of(s: Seq<char>) -> Result<Seq<char>, Seq<char>>;

/// Relies on `yaml_rust::YamlLoader::load_from_str`: the documents of a
/// text, a function of the text alone. The loader recurses once per level
/// of nesting, so only the embedded description, which nests a few levels,
/// is handed to it.
#[verifier::external_body]
fn load_documents(text: &str) -> (r: Option<Vec<Yaml>>)
    requires
        text@ == SCHEMA_DOCUMENT@,
    ensures
        match r {
            Some(d) => yaml_documents_of(text@) == Some(d@),
            None => yaml_documents_of(text@) is None,
        },
{
    yaml_rust::YamlLoader::load_from_str(text).ok()
}

/// Relies on `Index<&str> for yaml_rust::Yaml`, which looks the key up as a
/// string key of a mapping and yields `BadValue` where there is none.
#[verifier::external_body]
fn field(node: &Yaml, key: &str) -> (r: Option<Yaml>)
    ensures
        r == yaml_field_of(*node, key@),
{
    match &node[key] {
        Yaml::BadValue => None,
        v => Some(v.clone()),
    }
}

/// Relies on `yaml_rust::Yaml::as_hash` and the mapping's `keys`, which
/// visit the keys in insertion order.
#[verifier::external_body]
fn mapping_keys(node: &Yaml) -> (r: Option<Vec<Yaml>>)
    ensures
        match r {
            Some(k) => yaml_keys_of(*node) == Some(k@),
            None => yaml_keys_of(*node) is None,
        },
{
    node.as_hash().map(|h| h.keys().cloned().collect())
}

/// Relies on `yaml_rust::Yaml::as_str`: the text of a string node.
#[verifier::external_body]
fn string_of(node: &Yaml) -> (r: Option<String>)
    ensures
        match r {
            Some(s) => yaml_str_of(*node) == Some(s@),
            None => yaml_str_of(*node) is None,
        },
{
    node.as_str().map(|s| s.to_owned())
}

/// Relies on `yaml_rust::YamlEmitter::dump`, writing into a `String`. It
/// recurses once per level of nesting; the nodes handed to it all come from
/// the embedded description.
#[verifier::external_body]
fn emit(node: &Yaml) -> (r: Option<String>)
    ensures
        match r {
            Some(t) => yaml_text_of(*node) == Some(t@),
            None => yaml_text_of(*node) is None,
        },
{
    let mut out = String::new();
    let done = yaml_rust::YamlEmitter::new(&mut out).dump(node);
    done.ok().map(|_| out)
}

/// Relies on `FromStr for http::Uri` and `http::Uri::path`, and on the
/// parse error's `Display` for its message.
#[verifier::external_body]
fn parse_uri_path(s: &str) -> (r: Result<String, String>)
    ensures
        match r {
            Ok(p) => uri_path_of(s@) == Ok::<Seq<char>, Seq<char>>(p@),
            Err(m) => uri_path_of(s@) == Err::<Seq<char>, Seq<char>>(m@),
        },
{
    match s.parse::<http::Uri>() {
        Ok(u) => Ok(u.path().to_owned()),
        Err(e) => Err(e.to_string()),
    }
}

/// The texts of the string keys among `keys`, in order.
pub open spec fn string_keys(keys: Seq<Yaml>) -> Seq<Seq<char>>
    decreases keys.len(),
{
    if keys.len() == 0 {
        Seq::empty()
    } else {
        let rest = string_keys(keys.drop_last());
        match yaml_str_of(keys.last()) {
            Some(s) => rest.push(s),
            None => rest,
        }
    }
}

/// One line `- <key>` for each key that starts with `prefix`, in order.
pub open spec fn matching_lines(keys: Seq<Seq<char>>, prefix: Seq<char>) -> Seq<Seq<char>>
    decreases keys.len(),
{
    if keys.len() == 0 {
        Seq::empty()
    } else {
        let rest = matching_lines(keys.drop_last(), prefix);
        if is_prefix_of(prefix, keys.last()) {
            rest.push("- "@ + keys.last())
        } else {
            rest
        }
    }
}

/// The `paths` mapping of loaded documents: the `paths` field of the first
/// document, where that is a mapping with at least one key.
pub open spec fn paths_of_documents(docs: Option<Seq<Yaml>>) -> Option<Yaml> {
    match docs {
        Some(docs) => if docs.len() > 0 {
            match yaml_field_of(docs[0], "paths"@) {
                Some(p) => match yaml_keys_of(p) {
                    Some(ks) => if ks.len() > 0 { Some(p) } else { None },
                    None => None,
                },
                None => None,
            }
        } else {
            None
        },
        None => None,
    }
}

/// The `paths` mapping of the embedded description.
pub open spec fn embedded_paths() -> Option<Yaml> {
    paths_of_documents(yaml_documents_of(SCHEMA_DOCUMENT@))
}

/// What one schema query reports.
#[derive(Debug, PartialEq, Eq)]
pub enum SchemaOutcome {
    /// The query is no URI; the parse error's message.
    BadPath(String),
    /// The schema has no usable `paths` mapping.
    Malformed,
    /// Exact lookup: the path is not among the declared paths.
    NotFound,
    /// Exact lookup: the declared shape of the path, as YAML text.
    Shape(String),
    /// Exact lookup: the shape could not be written out as YAML.
    EmitFailed,
    /// Prefix search: one `- <key>` line per matching path.
    Matches(Vec<String>),
}

/// The mathematical value of a [`SchemaOutcome`].
pub enum SchemaReport {
    BadPath(Seq<char>),
    Malformed,
    NotFound,
    Shape(Seq<char>),
    EmitFailed,
    Matches(Seq<Seq<char>>),
}

impl View for SchemaOutcome {
    type V = SchemaReport;

    open spec fn view(&self) -> SchemaReport {
        match self {
            SchemaOutcome::BadPath(m) => SchemaReport::BadPath(m@),
            SchemaOutcome::Malformed => SchemaReport::Malformed,
            SchemaOutcome::NotFound => SchemaReport::NotFound,
            SchemaOutcome::Shape(t) => SchemaReport::Shape(t@),
            SchemaOutcome::EmitFailed => SchemaReport::EmitFailed,
            SchemaOutcome::Matches(v) => SchemaReport::Matches(strings_view(v@)),
        }
    }
}

/// What an exact lookup of `path` in the mapping `paths` reports.
pub open spec fn lookup_report(paths: Yaml, path: Seq<char>) -> SchemaReport {
    match yaml_field_of(paths, path) {
        None => SchemaReport::NotFound,
        Some(shape) => match yaml_text_of(shape) {
            Some(t) => SchemaReport::Shape(t),
            None => SchemaReport::EmitFailed,
        },
    }
}

/// The declared path strings of the mapping `paths`, in order.
pub open spec fn declared_paths(paths: Yaml) -> Seq<Seq<char>> {
    match yaml_keys_of(paths) {
        Some(ks) => string_keys(ks),
        None => Seq::empty(),
    }
}

/// What a query of `query` against loaded documents reports, as an exact
/// lookup or, where `search` holds, as a prefix search.
pub open spec fn report_for(docs: Option<Seq<Yaml>>, query: Seq<char>, search: bool) -> SchemaReport {
    match uri_path_of(query) {
        Err(m) => SchemaReport::BadPath(m),
        Ok(path) => match paths_of_documents(docs) {
            None => SchemaReport::Malformed,
            Some(paths) => if search {
                SchemaReport::Matches(matching_lines(declared_paths(paths), path))
            } else {
                lookup_report(paths, path)
            },
        },
    }
}

/// What a query reports against the embedded description.
pub open spec fn schema_report(query: Seq<char>, search: bool) -> SchemaReport {
    report_for(yaml_documents_of(SCHEMA_DOCUMENT@), query, search)
}

/// A typed view of a schema's `paths` mapping.
pub struct SchemaPaths {
    paths: Yaml,
}

impl SchemaPaths {
    /// The mapping itself.
    pub closed spec fn node(&self) -> Yaml {
        self.paths
    }

    /// Takes the `paths` mapping out of the embedded description.
    pub fn embedded() -> (r: Option<SchemaPaths>)
        ensures
            match r {
                Some(p) => embedded_paths() == Some(p.node()),
                None => embedded_paths() is None,
            },
    {
        let docs = match load_documents(SCHEMA_DOCUMENT) {
            Some(d) => d,
            None => return None,
        };
        if docs.len() == 0 {
            return None;
        }
        let paths = match field(&docs[0], "paths") {
            Some(p) => p,
            None => return None,
        };
        match mapping_keys(&paths) {
            Some(ks) => if ks.len() > 0 {
                Some(SchemaPaths { paths })
            } else {
                None
            },
            None => None,
        }
    }

    /// The declared shape of one literal path.
    pub fn lookup(&self, path: &str) -> (r: Option<Yaml>)
        ensures
            r == yaml_field_of(self.node(), path@),
    {
        field(&self.paths, path)
    }

    /// The declared path strings, in the mapping's order.
    pub fn keys(&self) -> (r: Vec<String>)
        ensures
            strings_view(r@) == declared_paths(self.node()),
    {
        let nodes = match mapping_keys(&self.paths) {
            Some(ks) => ks,
            None => {
                let r: Vec<String> = Vec::new();
                assert(strings_view(r@) =~= declared_paths(self.node()));
                return r;
            },
        };
        let mut r: Vec<String> = Vec::new();
        let mut i: usize = 0;
        while i < nodes.len()
            invariant
                i <= nodes@.len(),
                strings_view(r@) == string_keys(nodes@.take(i as int)),
            decreases nodes@.len() - i,
        {
            let s = string_of(&nodes[i]);
            assert(nodes@.take(i + 1).drop_last() =~= nodes@.take(i as int));
            match s {
                Some(k) => {
                    r.push(k);
                    assert(strings_view(r@) =~= string_keys(nodes@.take(i + 1)));
                },
                None => {},
            }
            i = i + 1;
        }
        assert(nodes@.take(nodes@.len() as int) =~= nodes@);
        r
    }

    /// Exact lookup of a path, written out as YAML.
    pub fn lookup_text(&self, path: &str) -> (r: SchemaOutcome)
        ensures
            r@ == lookup_report(self.node(), path@),
    {
        match self.lookup(path) {
            None => SchemaOutcome::NotFound,
            Some(shape) => match emit(&shape) {
                Some(t) => SchemaOutcome::Shape(t),
                None => SchemaOutcome::EmitFailed,
            },
        }
    }

    /// Prefix search over the declared paths.
    pub fn search(&self, prefix: &str) -> (r: Vec<String>)
        ensures
            strings_view(r@) == matching_lines(declared_paths(self.node()), prefix@),
    {
        let keys = self.keys();
        search_lines(&keys, prefix)
    }
}

/// One line `- <key>` for each of `keys` that starts with `prefix` as a
/// literal string, in order.
pub fn search_lines(keys: &Vec<String>, prefix: &str) -> (r: Vec<String>)
    ensures
        strings_view(r@) == matching_lines(strings_view(keys@), prefix@),
{
    let mut r: Vec<String> = Vec::new();
    let mut i: usize = 0;
    while i < keys.len()
        invariant
            i <= keys@.len(),
            strings_view(r@) == matching_lines(strings_view(keys@).take(i as int), prefix@),
        decreases keys@.len() - i,
    {
        let k = &keys[i];
        assert(strings_view(keys@).take(i + 1).drop_last() =~= strings_view(keys@).take(i as int));
        assert(strings_view(keys@).take(i + 1).last() == k@);
        if has_prefix(k.as_str(), prefix) {
            proof {
                reveal_strlit("- ");
            }
            let line = "- ".to_owned().concat(k.as_str());
            r.push(line);
            assert(strings_view(r@) =~= matching_lines(strings_view(keys@).take(i + 1), prefix@));
        } else {
            assert(strings_view(r@) =~= matching_lines(strings_view(keys@).take(i + 1), prefix@));
        }
        i = i + 1;
    }
    assert(strings_view(keys@).take(keys@.len() as int) =~= strings_view(keys@));
    r
}

/// Resolves one schema query against the embedded description: the query
/// is read as a URI and its path component is looked up exactly or, where
/// `search` holds, used as a literal prefix of the declared paths.
pub fn resolve_schema(query: &str, search: bool) -> (r: SchemaOutcome)
    ensures
        r@ == schema_report(query@, search),
{
    let path = match parse_uri_path(query) {
        Ok(p) => p,
        Err(m) => return SchemaOutcome::BadPath(m),
    };
    let paths = match SchemaPaths::embedded() {
        Some(p) => p,
        None => return SchemaOutcome::Malformed,
    };
    if search {
        SchemaOutcome::Matches(paths.search(path.as_str()))
    } else {
        paths.lookup_text(path.as_str())
    }
}

/// An exact lookup of a path that the `paths` mapping declares reports the
/// YAML text of that path's shape.
pub proof fn lemma_lookup_declared(
    docs: Seq<Yaml>,
    query: Seq<char>,
    paths: Yaml,
    shape: Yaml,
    text: Seq<char>,
)
    requires
        docs.len() > 0,
        yaml_field_of(docs[0], "paths"@) == Some(paths),
        yaml_keys_of(paths) matches Some(ks) && ks.len() > 0,
        uri_path_of(query) matches Ok(path) && yaml_field_of(paths, path) == Some(shape),
        yaml_text_of(shape) == Some(text),
    ensures
        report_for(Some(docs), query, false) == SchemaReport::Shape(text),
{
}

/// An exact lookup of a path that a non-empty `paths` mapping does not
/// declare reports that it was not found, with no shape.
pub proof fn lemma_lookup_undeclared(docs: Seq<Yaml>, query: Seq<char>, paths: Yaml)
    requires
        docs.len() > 0,
        yaml_field_of(docs[0], "paths"@) == Some(paths),
        yaml_keys_of(paths) matches Some(ks) && ks.len() > 0,
        uri_path_of(query) matches Ok(path) && yaml_field_of(paths, path) is None,
    ensures
        report_for(Some(docs), query, false) == SchemaReport::NotFound,
{
}

/// Two runs of the same query against the embedded description report the
/// same outcome.
pub proof fn lemma_query_repeatable(
    query: Seq<char>,
    search: bool,
    first: SchemaReport,
    second: SchemaReport,
)
    requires
        first == schema_report(query, search),
        second == schema_report(query, search),
    ensures
        first == second,
{
}

/// Documents whose first one has no `paths` key are malformed to an exact
/// lookup and to a prefix search alike, and neither lists a path.
pub proof fn lemma_no_paths_malformed(docs: Seq<Yaml>, query: Seq<char>)
    requires
        docs.len() > 0,
        yaml_field_of(docs[0], "paths"@) is None,
        uri_path_of(query) is Ok,
    ensures
        report_for(Some(docs), query, false) == SchemaReport::Malformed,
        report_for(Some(docs), query, true) == SchemaReport::Malformed,
{
}

} // verus!
