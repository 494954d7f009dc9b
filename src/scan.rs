//! Locating the path data of a document's first `path` element.
use vstd::prelude::*;
use crate::translate::TranslateError;
use svg::parser::Event;

verus! {

#[verifier::external_type_specification]
#[verifier::external_body]
pub struct ExIoError(std::io::Error);

/// One event of a scanned document: a tag with its name and attributes,
/// markup the scanner could not tokenize, or anything else (text, comments,
/// declarations, instructions).
#[derive(Clone, Debug, PartialEq, Eq)]
pub enum SvgNode {
    Tag(String, Vec<(String, String)>),
    Error,
    Other,
}

/// The value of the first attribute named `key`.
pub open spec fn attr_value(attrs: Seq<(String, String)>, key: Seq<char>) -> Option<Seq<char>>
    decreases attrs.len(),
{
    if attrs.len() == 0 {
        None
    } else if attrs[0].0@ == key {
        Some(attrs[0].1@)
    } else {
        attr_value(attrs.drop_first(), key)
    }
}

/// What the first `path` node gives, scanning in order: `Ok(None)` where
/// there is none, `DocumentParseFailure` where markup that could not be
/// tokenized comes before it, `MissingPathData` where it has no `d`
/// attribute, and that attribute's value otherwise. Nodes after the first
/// `path` node are not looked at.
pub open spec fn path_data_of(nodes: Seq<SvgNode>) -> Result<Option<Seq<char>>, TranslateError>
    decreases nodes.len(),
{
    if nodes.len() == 0 {
        Ok(None)
    } else {
        match nodes[0] {
            SvgNode::Error => Err(TranslateError::DocumentParseFailure),
            SvgNode::Tag(name, attrs) => if name@ == "path"@ {
                match attr_value(attrs@, "d"@) {
                    Some(d) => Ok(Some(d)),
                    None => Err(TranslateError::MissingPathData),
                }
            } else {
                path_data_of(nodes.drop_first())
            },
            SvgNode::Other => path_data_of(nodes.drop_first()),
        }
    }
}

proof fn lemma_path_data_errors(nodes: Seq<SvgNode>)
    ensures
        path_data_of(nodes) is Err ==> path_data_of(nodes) == Err::<Option<Seq<char>>, TranslateError>(
            TranslateError::DocumentParseFailure,
        ) || path_data_of(nodes) == Err::<Option<Seq<char>>, TranslateError>(
            TranslateError::MissingPathData,
        ),
    decreases nodes.len(),
{
    if nodes.len() > 0 {
        lemma_path_data_errors(nodes.drop_first());
    }
}

fn find_attr(attrs: &Vec<(String, String)>, key: &String) -> (r: Option<String>)
    ensures
        match attr_value(attrs@, key@) {
            None => r is None,
            Some(v) => r matches Some(s) && s@ == v,
        },
{
    let mut i: usize = 0;
    assert(attrs@.subrange(0, attrs@.len() as int) =~= attrs@);
    while i < attrs.len()
        invariant
            0 <= i <= attrs@.len(),
            attr_value(attrs@, key@) == attr_value(attrs@.subrange(i as int, attrs@.len() as int), key@),
        decreases attrs@.len() - i,
    {
        let ghost rest = attrs@.subrange(i as int, attrs@.len() as int);
        if attrs[i].0 == *key {
            return Some(attrs[i].1.clone());
        }
        assert(rest.drop_first() =~= attrs@.subrange(i + 1, attrs@.len() as int));
        i = i + 1;
    }
    None
}

/// The path data of the first `path` node, as `path_data_of` says: a scan
/// error before it fails with `DocumentParseFailure`, a missing `d` with
/// `MissingPathData`, and no such node gives `Ok(None)`.
pub fn first_path_data(nodes: &Vec<SvgNode>) -> (r: Result<Option<String>, TranslateError>)
    ensures
        match path_data_of(nodes@) {
            Ok(None) => r matches Ok(None),
            Ok(Some(d)) => r matches Ok(Some(s)) && s@ == d,
            Err(e) => r == Err::<Option<String>, TranslateError>(e),
        },
{
    let path_tag = "path".to_owned();
    let d_key = "d".to_owned();
    let mut i: usize = 0;
    assert(nodes@.subrange(0, nodes@.len() as int) =~= nodes@);
    while i < nodes.len()
        invariant
            0 <= i <= nodes@.len(),
            path_tag@ == "path"@,
            d_key@ == "d"@,
            path_data_of(nodes@) == path_data_of(
                nodes@.subrange(i as int, nodes@.len() as int),
            ),
        decreases nodes@.len() - i,
    {
        let ghost rest = nodes@.subrange(i as int, nodes@.len() as int);
        assert(rest[0] == nodes@[i as int]);
        match &nodes[i] {
            SvgNode::Tag(name, attrs) => {
                if *name == path_tag {
                    return match find_attr(attrs, &d_key) {
                        Some(d) => Ok(Some(d)),
                        None => Err(TranslateError::MissingPathData),
                    };
                }
            },
            SvgNode::Error => {
                return Err(TranslateError::DocumentParseFailure);
            },
            SvgNode::Other => {},
        }
        assert(rest.drop_first() =~= nodes@.subrange(i + 1, nodes@.len() as int));
        i = i + 1;
    }
    Ok(None)
}

/// Relies on svg::read, which always returns `Ok`, and on the parser it
/// returns: the document's events in order, each tag with its name and its
/// attribute map, each piece of markup it cannot tokenize as an error
/// event. The map is walked in no fixed order, so nothing more is promised
/// of the nodes; its keys are distinct, so a lookup by key does not depend
/// on that order.
#[verifier::external_body]
fn scan_nodes(input: &str) -> (r: Result<Vec<SvgNode>, std::io::Error>)
    ensures
        r is Ok,
{
    Ok(svg::read(input)?.map(|event| match event {
        Event::Tag(name, _, a) => SvgNode::Tag(name.to_string(), a.into_iter().map(|(k, v)| (k, v.into())).collect()),
        Event::Error(_) => SvgNode::Error,
        Event::Text(_) => SvgNode::Other,
        Event::Comment(_) => SvgNode::Other,
        Event::Declaration(_) => SvgNode::Other,
        Event::Instruction(_) => SvgNode::Other,
    }).collect())
}

/// Scans a document and returns the path data of its first `path` element,
/// `Ok(None)` where it has none. Fails with `DocumentParseFailure` where
/// markup that the scanner cannot tokenize comes before that element, and
/// with `MissingPathData` where that element has no `d` attribute. The
/// scanned nodes are handed to `first_path_data`, whose contract is exact.
pub fn find_path_data(input: &str) -> (r: Result<Option<String>, TranslateError>)
    ensures
        r is Err ==> r == Err::<Option<String>, TranslateError>(TranslateError::DocumentParseFailure)
            || r == Err::<Option<String>, TranslateError>(TranslateError::MissingPathData),
{
    match scan_nodes(input) {
        Err(_) => Err(TranslateError::DocumentParseFailure),
        Ok(nodes) => {
            proof {
                lemma_path_data_errors(nodes@);
            }
            first_path_data(&nodes)
        },
    }
}

} // verus!
