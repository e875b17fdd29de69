//! Filling in a template.

use vstd::prelude::*;
use crate::templates::is_template;

verus! {

/// A name with the text that stands for it.
#[derive(Debug)]
pub struct Field {
    /// The name by which a template asks for the text.
    pub key: String,
    /// The text.
    pub value: String,
}

/// A row of a list: a few fields of its own.
#[derive(Debug)]
pub struct Record {
    /// The fields of the row.
    pub fields: Vec<Field>,
}

/// A name with the rows that a template goes through under it.
#[derive(Debug)]
pub struct List {
    /// The name by which a template asks for the rows.
    pub key: String,
    /// The rows, in order.
    pub records: Vec<Record>,
}

/// What a template is filled in with.
#[derive(Debug)]
pub struct TemplateData {
    /// The texts, each under a name of its own.
    pub fields: Vec<Field>,
    /// The lists, each under a name of its own that no text has.
    pub lists: Vec<List>,
}

/// The fields of a sequence as pairs of name and text.
pub open spec fn field_views(v: Seq<Field>) -> Seq<(Seq<char>, Seq<char>)> {
    Seq::new(v.len(), |i: int| (v[i].key@, v[i].value@))
}

/// The rows of a sequence, each as its pairs of name and text.
pub open spec fn record_views(v: Seq<Record>) -> Seq<Seq<(Seq<char>, Seq<char>)>> {
    Seq::new(v.len(), |i: int| field_views(v[i].fields@))
}

/// The lists of a sequence, each as its name and its rows.
pub open spec fn list_views(v: Seq<List>) -> Seq<(Seq<char>, Seq<Seq<(Seq<char>, Seq<char>)>>)> {
    Seq::new(v.len(), |i: int| (v[i].key@, record_views(v[i].records@)))
}

/// What [`TemplateData`] stands for.
pub ghost struct DataView {
    pub fields: Seq<(Seq<char>, Seq<char>)>,
    pub lists: Seq<(Seq<char>, Seq<Seq<(Seq<char>, Seq<char>)>>)>,
}

impl View for TemplateData {
    type V = DataView;

    open spec fn view(&self) -> DataView {
        DataView { fields: field_views(self.fields@), lists: list_views(self.lists@) }
    }
}

/// The bytes that the `mustache` crate makes of a template and the data for
/// it, or nothing where it reports an error. See [`fill_in`], the one place
/// where the crate is called.
pub uninterp spec fn rendered(
    template: Seq<char>,
    fields: Seq<(Seq<char>, Seq<char>)>,
    lists: Seq<(Seq<char>, Seq<Seq<(Seq<char>, Seq<char>)>>)>,
) -> Option<Seq<u8>>;

/// Whether no name occurs twice among the fields.
pub open spec fn distinct_names(fields: Seq<(Seq<char>, Seq<char>)>) -> bool {
    forall|i: int, j: int|
        0 <= i < j < fields.len() ==> (#[trigger] fields[i]).0 != (#[trigger] fields[j]).0
}

/// Whether every name stands for one thing: no two texts share a name, no
/// two fields of a row do, there is at most one list, and no text has the
/// name of a list.
pub open spec fn unambiguous(data: DataView) -> bool {
    &&& distinct_names(data.fields)
    &&& data.lists.len() <= 1
    &&& forall|i: int, j: int|
        0 <= i < data.fields.len() && 0 <= j < data.lists.len() ==> (#[trigger] data.fields[i]).0
            != (#[trigger] data.lists[j]).0
    &&& forall|i: int, k: int|
        0 <= i < data.lists.len() && 0 <= k < data.lists[i].1.len() ==> distinct_names(
            #[trigger] data.lists[i].1[k],
        )
}

/// Whether the template may be filled in with the data: the template is one
/// of this library, the only list is that of the authors, which these
/// templates go through and never print as a text, and every name stands
/// for one thing.
pub open spec fn renderable(template: Seq<char>, data: DataView) -> bool {
    &&& is_template(template)
    &&& forall|i: int| 0 <= i < data.lists.len() ==> (#[trigger] data.lists[i]).0 == "author"@
    &&& unambiguous(data)
}

/// `mustache::Error`, the error of the template engine. Nothing is said of
/// what it holds.
#[verifier::external_type_specification]
#[verifier::external_body]
pub struct ExMustacheError(mustache::Error);

/// `mustache::compile_str` and `mustache::Template::render_data`, on the
/// data as a `mustache::Data::Map` that holds each text as a string and each
/// list as a vector of maps of strings. Every name stands for one thing, so
/// the map holds all that the data holds. The templates of this library name
/// no partial, so nothing is read from disk, and they print no list as a
/// text, so the engine does not panic. What comes out depends on the template
/// and the data alone.
#[verifier::external_body]
pub(crate) fn fill_in(template: &str, data: &TemplateData) -> (r: Result<Vec<u8>, mustache::Error>)
    requires
        renderable(template@, data@),
    ensures
        r matches Ok(bytes) ==> rendered(template@, data@.fields, data@.lists) == Some(bytes@),
        r is Err ==> rendered(template@, data@.fields, data@.lists) is None,
{
    let text = |f: &Field| (f.key.clone(), mustache::Data::String(f.value.clone()));
    let mut top: std::collections::HashMap<String, mustache::Data> =
        data.fields.iter().map(text).collect();
    for list in data.lists.iter() {
        let row = |r: &Record| mustache::Data::Map(r.fields.iter().map(text).collect());
        top.insert(list.key.clone(), mustache::Data::Vec(list.records.iter().map(row).collect()));
    }
    let mut out = Vec::new();
    mustache::compile_str(template)?.render_data(&mut out, &mustache::Data::Map(top))?;
    Ok(out)
}

} // verus!
