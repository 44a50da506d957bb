//! Licences that apply to the data of a Zarr node.

use crate::convention::{ConventionDefinition, DefinitionView};
use crate::error::Error;
use crate::fields::{
    lemma_has_key_concat, lemma_optional_field, lemma_optional_has_key, nothing_or, optional_entry,
    read_text_field, text_field, write_optional,
};
use crate::in_use::json_views;
use crate::json::{has_key, Attributes, Entries, Json, JsonView};
use crate::seqs::{first_index, lemma_first_index_is};
use crate::text::{as_text, copy_text, text_of};
use crate::traits::{FromJson, NestedRepr, ToJson, ZarrConventionImpl};
use crate::uri::{copy_uri, is_uri, uri_text_of, Uri};
use vstd::prelude::*;

verus! {

/// The ways of naming one licence, any of which may be absent.
pub struct LicenseItemView {
    pub spdx: Option<Seq<char>>,
    pub url: Option<Seq<char>>,
    pub text: Option<Seq<char>>,
    pub file: Option<Seq<char>>,
    pub path: Option<Seq<char>>,
}

/// Whether at least one way of naming the licence is present.
pub open spec fn names_a_license(v: LicenseItemView) -> bool {
    v.spdx is Some || v.url is Some || v.text is Some || v.file is Some || v.path is Some
}

/// A view with nothing present.
pub open spec fn nothing() -> LicenseItemView {
    LicenseItemView { spdx: None, url: None, text: None, file: None, path: None }
}

/// Only the most preferred way that is present, in the order SPDX
/// identifier, URL, text, file, path.
pub open spec fn most_preferred(v: LicenseItemView) -> LicenseItemView {
    if v.spdx is Some {
        LicenseItemView { spdx: v.spdx, ..nothing() }
    } else if v.url is Some {
        LicenseItemView { url: v.url, ..nothing() }
    } else if v.text is Some {
        LicenseItemView { text: v.text, ..nothing() }
    } else if v.file is Some {
        LicenseItemView { file: v.file, ..nothing() }
    } else {
        LicenseItemView { path: v.path, ..nothing() }
    }
}

/// The message of a build that names no licence.
pub open spec fn no_field_message() -> Seq<char> {
    "At least one field must be set for LicenseItem"@
}

/// One licence, named in at least one way.
#[derive(Debug)]
pub struct LicenseItem {
    spdx: Option<String>,
    url: Option<Uri>,
    text: Option<String>,
    file: Option<String>,
    path: Option<String>,
}

/// Zero or more licences.
#[derive(Debug)]
pub struct License {
    items: Vec<LicenseItem>,
}

/// Collects the ways of naming one licence. At least one must be set; it is
/// best to set only one.
#[derive(Debug)]
pub struct LicenseItemBuilder {
    spdx: Option<String>,
    url: Option<Uri>,
    text: Option<String>,
    file: Option<String>,
    path: Option<String>,
    short: bool,
}

/// What a [`LicenseItemBuilder`] holds.
pub struct LicenseItemBuilderView {
    pub fields: LicenseItemView,
    pub short: bool,
}

impl View for LicenseItem {
    type V = LicenseItemView;

    closed spec fn view(&self) -> LicenseItemView {
        LicenseItemView {
            spdx: text_of(self.spdx),
            url: uri_text_of(self.url),
            text: text_of(self.text),
            file: text_of(self.file),
            path: text_of(self.path),
        }
    }
}

impl Clone for LicenseItem {
    fn clone(&self) -> (r: LicenseItem)
        ensures
            r@ == self@,
    {
        proof {
            use_type_invariant(self);
        }
        LicenseItem {
            spdx: copy_text(&self.spdx),
            url: copy_uri(&self.url),
            text: copy_text(&self.text),
            file: copy_text(&self.file),
            path: copy_text(&self.path),
        }
    }
}

impl View for LicenseItemBuilder {
    type V = LicenseItemBuilderView;

    closed spec fn view(&self) -> LicenseItemBuilderView {
        LicenseItemBuilderView {
            fields: LicenseItemView {
                spdx: text_of(self.spdx),
                url: uri_text_of(self.url),
                text: text_of(self.text),
                file: text_of(self.file),
                path: text_of(self.path),
            },
            short: self.short,
        }
    }
}

impl View for License {
    type V = Seq<LicenseItemView>;

    closed spec fn view(&self) -> Seq<LicenseItemView> {
        Seq::new(self.items@.len(), |i: int| self.items@[i]@)
    }
}

/// The definition of the convention for licences.
pub open spec fn license_definition() -> DefinitionView {
    DefinitionView {
        uuid: 0xb77365e5_2b0c_4141_b917_c03b7c68e935,
        schema_url: "https://raw.githubusercontent.com/clbarnes/zarr-convention-license/refs/tags/v1/schema.json"@,
        spec_url: "https://github.com/clbarnes/zarr-convention-license/blob/v1/README.md"@,
        name: "license"@,
        description: "Dataset licensing information."@,
    }
}

/// The JSON of one licence: an object with the fields `spdx`, `url`, `text`,
/// `file` and `path`, each only where it is present.
pub open spec fn written_item(v: LicenseItemView) -> JsonView {
    JsonView::Object(
        optional_entry("spdx"@, v.spdx) + optional_entry("url"@, v.url) + optional_entry(
            "text"@,
            v.text,
        ) + optional_entry("file"@, v.file) + optional_entry("path"@, v.path),
    )
}

/// The licence that a JSON value holds, `None` where it holds none: the value
/// must be an object whose fields `spdx`, `url`, `text`, `file` and `path`
/// each read as a text or as nothing, the URL must be an absolute URI, and
/// at least one of the five must be present.
pub open spec fn read_item(v: JsonView) -> Option<LicenseItemView> {
    match v {
        JsonView::Object(entries) => {
            let spdx = text_field(entries, "spdx"@);
            let url = text_field(entries, "url"@);
            let text = text_field(entries, "text"@);
            let file = text_field(entries, "file"@);
            let path = text_field(entries, "path"@);
            if spdx is Some && url is Some && text is Some && file is Some && path is Some
                && nothing_or(url->Some_0, |t: Seq<char>| is_uri(t)) && (spdx->Some_0 is Some
                || url->Some_0 is Some || text->Some_0 is Some || file->Some_0 is Some
                || path->Some_0 is Some) {
                Some(
                    LicenseItemView {
                        spdx: spdx->Some_0,
                        url: url->Some_0,
                        text: text->Some_0,
                        file: file->Some_0,
                        path: path->Some_0,
                    },
                )
            } else {
                None
            }
        },
        _ => None,
    }
}

/// The JSON of licences: the list of their objects.
pub open spec fn written_license(items: Seq<LicenseItemView>) -> JsonView {
    JsonView::Array(Seq::new(items.len(), |i: int| written_item(items[i])))
}

/// The licences that a JSON value holds, `None` where it holds none: the
/// value must be a list of which each value holds a licence.
pub open spec fn read_license(v: JsonView) -> Option<Seq<LicenseItemView>> {
    match v {
        JsonView::Array(values) => if first_index(values, |x: JsonView| read_item(x) is None)
            == values.len() {
            Some(Seq::new(values.len(), |i: int| read_item(values[i])->Some_0))
        } else {
            None
        },
        _ => None,
    }
}

/// Whether a licence is named in at least one way, with a URL that is an
/// absolute URI.
pub open spec fn valid_item(v: LicenseItemView) -> bool {
    names_a_license(v) && (v.url matches Some(u) ==> is_uri(u))
}

/// Entries that both lack a key lack it one behind the other.
proof fn lemma_lacks(a: Entries, b: Entries, key: Seq<char>)
    requires
        !has_key(a, key),
        !has_key(b, key),
    ensures
        !has_key(a + b, key),
{
    lemma_has_key_concat(a, b, key);
}

/// A licence that was written as JSON is read back as it was.
pub proof fn law_license_item_round_trip(v: LicenseItemView)
    requires
        valid_item(v),
    ensures
        read_item(written_item(v)) == Some(v),
{
    reveal_strlit("spdx");
    reveal_strlit("url");
    reveal_strlit("text");
    reveal_strlit("file");
    reveal_strlit("path");
    assert("spdx"@.len() == 4 && "url"@.len() == 3 && "text"@.len() == 4);
    assert("file"@.len() == 4 && "path"@.len() == 4);
    assert("spdx"@[0] == 's' && "text"@[0] == 't' && "file"@[0] == 'f' && "path"@[0] == 'p');
    let none = Entries::empty();
    let spdx = optional_entry("spdx"@, v.spdx);
    let url = optional_entry("url"@, v.url);
    let text = optional_entry("text"@, v.text);
    let file = optional_entry("file"@, v.file);
    let path = optional_entry("path"@, v.path);
    let all = spdx + url + text + file + path;

    assert forall|key: Seq<char>|
        #![trigger has_key(spdx, key)]
        (key != "spdx"@ ==> !has_key(spdx, key)) && (key != "url"@ ==> !has_key(url, key)) && (key
            != "text"@ ==> !has_key(text, key)) && (key != "file"@ ==> !has_key(file, key)) && (key
            != "path"@ ==> !has_key(path, key)) by {
        lemma_optional_has_key("spdx"@, v.spdx, key);
        lemma_optional_has_key("url"@, v.url, key);
        lemma_optional_has_key("text"@, v.text, key);
        lemma_optional_has_key("file"@, v.file, key);
        lemma_optional_has_key("path"@, v.path, key);
    }

    assert(text_field(all, "spdx"@) == Some(v.spdx)) by {
        let key = "spdx"@;
        assert(!has_key(spdx, "url"@));
        lemma_lacks(url, text, key);
        lemma_lacks(url + text, file, key);
        lemma_lacks(url + text + file, path, key);
        lemma_optional_field(none, key, v.spdx, url + text + file + path);
        assert(none + spdx + (url + text + file + path) =~= all);
    }
    assert(text_field(all, "url"@) == Some(v.url)) by {
        let key = "url"@;
        assert(!has_key(spdx, key));
        lemma_lacks(text, file, key);
        lemma_lacks(text + file, path, key);
        lemma_optional_field(spdx, key, v.url, text + file + path);
        assert(spdx + url + (text + file + path) =~= all);
    }
    assert(text_field(all, "text"@) == Some(v.text)) by {
        let key = "text"@;
        assert(!has_key(spdx, key));
        lemma_lacks(spdx, url, key);
        lemma_lacks(file, path, key);
        lemma_optional_field(spdx + url, key, v.text, file + path);
        assert(spdx + url + text + (file + path) =~= all);
    }
    assert(text_field(all, "file"@) == Some(v.file)) by {
        let key = "file"@;
        assert(!has_key(spdx, key));
        lemma_lacks(spdx, url, key);
        lemma_lacks(spdx + url, text, key);
        lemma_optional_field(spdx + url + text, key, v.file, path);
    }
    assert(text_field(all, "path"@) == Some(v.path)) by {
        let key = "path"@;
        assert(!has_key(spdx, key));
        lemma_lacks(spdx, url, key);
        lemma_lacks(spdx + url, text, key);
        lemma_lacks(spdx + url + text, file, key);
        lemma_optional_field(spdx + url + text + file, key, v.path, none);
        assert(all + none =~= all);
    }
}

/// Whether each of the licences is valid.
pub open spec fn valid_items(items: Seq<LicenseItemView>) -> bool {
    forall|i: int| 0 <= i < items.len() ==> valid_item(#[trigger] items[i])
}

/// Licences that were written as JSON are read back as they were.
pub proof fn law_license_round_trip(items: Seq<LicenseItemView>)
    requires
        valid_items(items),
    ensures
        read_license(written_license(items)) == Some(items),
{
    let values = Seq::new(items.len(), |i: int| written_item(items[i]));
    let bad = |x: JsonView| read_item(x) is None;
    assert forall|i: int| 0 <= i < values.len() implies !bad(#[trigger] values[i]) && read_item(
        values[i],
    ) == Some(items[i]) by {
        law_license_item_round_trip(items[i]);
    }
    lemma_first_index_is(values, bad, values.len() as int);
    assert(Seq::new(values.len(), |i: int| read_item(values[i])->Some_0) =~= items);
}

/// Reads a field of a licence as an owned text or as nothing.
fn read_owned(record: &Attributes, key: &str) -> (r: Result<Option<String>, Error>)
    ensures
        match r {
            Ok(field) => text_field(record@, key@) == Some(text_of(field)),
            Err(e) => text_field(record@, key@) is None && e@ is Decode,
        },
{
    match read_text_field(record, key) {
        Ok(Some(t)) => Ok(Some(t.to_owned())),
        Ok(None) => Ok(None),
        Err(e) => Err(e),
    }
}

impl ToJson for LicenseItem {
    fn to_json(&self) -> (r: Result<Json, Error>)
        ensures
            r matches Ok(v) && v@ == written_item(self@) && (valid_item(self@) ==> read_item(v@)
                == Some(self@)),
    {
        proof {
            if valid_item(self@) {
                law_license_item_round_trip(self@);
            }
        }
        proof {
            reveal_strlit("spdx");
            reveal_strlit("url");
            reveal_strlit("text");
            reveal_strlit("file");
            reveal_strlit("path");
            assert("spdx"@.len() == 4 && "url"@.len() == 3 && "text"@.len() == 4);
            assert("file"@.len() == 4 && "path"@.len() == 4);
            assert("spdx"@[0] == 's' && "text"@[0] == 't' && "file"@[0] == 'f' && "path"@[0] == 'p');
        }
        let url = match &self.url {
            Some(u) => Some(u.as_str()),
            None => None,
        };
        let mut record = Attributes::new();
        write_optional(&mut record, "spdx", as_text(&self.spdx));
        write_optional(&mut record, "url", url);
        write_optional(&mut record, "text", as_text(&self.text));
        write_optional(&mut record, "file", as_text(&self.file));
        write_optional(&mut record, "path", as_text(&self.path));
        assert(record@ =~= written_item(self@)->Object_0);
        Ok(Json::Object(record))
    }
}

impl FromJson for LicenseItem {
    fn from_json(value: &Json) -> (r: Result<LicenseItem, Error>)
        ensures
            match r {
                Ok(item) => read_item(value@) == Some(item@),
                Err(e) => read_item(value@) is None && e@ is Decode,
            },
    {
        let record = match value {
            Json::Object(record) => record,
            _ => {
                return Err(Error::Decode("a licence that is no object".to_owned()));
            },
        };
        let spdx = read_owned(record, "spdx")?;
        let url = match read_text_field(record, "url") {
            Ok(Some(t)) => match Uri::parse(t) {
                Some(u) => Some(u),
                None => {
                    return Err(Error::Decode("the URL of a licence that is no absolute URI".to_owned()));
                },
            },
            Ok(None) => None,
            Err(e) => {
                return Err(e);
            },
        };
        let text = read_owned(record, "text")?;
        let file = read_owned(record, "file")?;
        let path = read_owned(record, "path")?;
        if spdx.is_none() && url.is_none() && text.is_none() && file.is_none() && path.is_none() {
            return Err(Error::Decode("At least one field must be set for LicenseItem".to_owned()));
        }
        Ok(LicenseItem { spdx, url, text, file, path })
    }
}

impl ToJson for License {
    fn to_json(&self) -> (r: Result<Json, Error>)
        ensures
            r matches Ok(v) && v@ == written_license(self@) && (valid_items(self@) ==> read_license(
                v@,
            ) == Some(self@)),
    {
        proof {
            if valid_items(self@) {
                law_license_round_trip(self@);
            }
        }
        let mut list: Vec<Json> = Vec::new();
        let mut i: usize = 0;
        while i < self.items.len()
            invariant
                0 <= i <= self.items@.len(),
                list@.len() == i,
                forall|j: int| 0 <= j < i ==> (#[trigger] list@[j])@ == written_item(self.items@[j]@),
            decreases self.items@.len() - i,
        {
            match self.items[i].to_json() {
                Ok(v) => {
                    list.push(v);
                },
                Err(e) => {
                    return Err(e);
                },
            }
            i += 1;
        }
        let r = Json::Array(list);
        assert(r@->Array_0 =~= written_license(self@)->Array_0);
        Ok(r)
    }
}

impl FromJson for License {
    fn from_json(value: &Json) -> (r: Result<License, Error>)
        ensures
            match r {
                Ok(l) => read_license(value@) == Some(l@),
                Err(e) => read_license(value@) is None && e@ is Decode,
            },
    {
        let values = match value {
            Json::Array(values) => values,
            _ => {
                return Err(Error::Decode("licences that are no list".to_owned()));
            },
        };
        let ghost all = json_views(values@);
        let ghost bad = |x: JsonView| read_item(x) is None;
        assert(all =~= value@->Array_0);
        let mut items: Vec<LicenseItem> = Vec::new();
        let mut i: usize = 0;
        while i < values.len()
            invariant
                0 <= i <= values@.len(),
                all == json_views(values@),
                value@ == JsonView::Array(all),
                bad == |x: JsonView| read_item(x) is None,
                items@.len() == i,
                forall|j: int| 0 <= j < i ==> !bad(#[trigger] all[j]),
                forall|j: int| 0 <= j < i ==> read_item(all[j]) == Some((#[trigger] items@[j])@),
            decreases values@.len() - i,
        {
            match LicenseItem::from_json(&values[i]) {
                Ok(item) => {
                    items.push(item);
                },
                Err(e) => {
                    proof {
                        assert(bad(all[i as int]));
                        lemma_first_index_is(all, bad, i as int);
                    }
                    return Err(e);
                },
            }
            i += 1;
        }
        proof {
            lemma_first_index_is(all, bad, i as int);
        }
        let r = License { items };
        assert(r@ =~= read_license(value@)->Some_0);
        Ok(r)
    }
}

impl ZarrConventionImpl for License {
    open spec fn definition_view() -> DefinitionView {
        license_definition()
    }

    fn definition() -> (d: ConventionDefinition) {
        ConventionDefinition {
            uuid: 0xb77365e5_2b0c_4141_b917_c03b7c68e935,
            schema_url: Uri::new(
                "https://raw.githubusercontent.com/clbarnes/zarr-convention-license/refs/tags/v1/schema.json",
            ),
            spec_url: Uri::new("https://github.com/clbarnes/zarr-convention-license/blob/v1/README.md"),
            name: "license".to_owned(),
            description: "Dataset licensing information.".to_owned(),
        }
    }
}

impl NestedRepr for License {
    const KEY: &'static str = "license";
}

impl License {
    /// The licences in `items`, in their order.
    pub fn from_items(items: Vec<LicenseItem>) -> (r: License)
        ensures
            r@ == Seq::new(items@.len(), |i: int| items@[i]@),
    {
        License { items }
    }

    /// A single licence.
    pub fn from_item(item: LicenseItem) -> (r: License)
        ensures
            r@ == seq![item@],
    {
        let mut items: Vec<LicenseItem> = Vec::new();
        items.push(item);
        let r = License { items };
        assert(r@ =~= seq![item@]);
        r
    }

    /// The licences, to be read.
    pub fn items(&self) -> (r: &Vec<LicenseItem>)
        ensures
            self@ == Seq::new(r@.len(), |i: int| r@[i]@),
    {
        &self.items
    }

    /// The licences, to be changed in place.
    pub fn inner_mut(&mut self) -> (r: &mut Vec<LicenseItem>)
        ensures
            old(self)@ == Seq::new(r@.len(), |i: int| r@[i]@),
            final(self)@ == Seq::new(final(r)@.len(), |i: int| final(r)@[i]@),
    {
        &mut self.items
    }
}

impl LicenseItem {
    #[verifier::type_invariant]
    spec fn named(self) -> bool {
        names_a_license(self@)
    }

    /// A builder with nothing set.
    pub fn builder() -> (b: LicenseItemBuilder)
        ensures
            b@ == (LicenseItemBuilderView { fields: nothing(), short: false }),
    {
        LicenseItemBuilder::default()
    }

    /// A licence named by its SPDX identifier.
    pub fn new_spdx(identifier: &str) -> (r: LicenseItem)
        ensures
            r@ == (LicenseItemView { spdx: Some(identifier@), ..nothing() }),
    {
        LicenseItem { spdx: Some(identifier.to_owned()), url: None, text: None, file: None, path: None }
    }

    /// The SPDX identifier, which should name a single licence.
    pub fn spdx(&self) -> (r: Option<&str>)
        ensures
            names_a_license(self@),
            match r {
                Some(s) => self@.spdx == Some(s@),
                None => self@.spdx is None,
            },
    {
        proof {
            use_type_invariant(self);
        }
        as_text(&self.spdx)
    }

    /// A licence named by the URL of its text.
    pub fn new_url(url: Uri) -> (r: LicenseItem)
        ensures
            r@ == (LicenseItemView { url: Some(url@), ..nothing() }),
    {
        LicenseItem { spdx: None, url: Some(url), text: None, file: None, path: None }
    }

    /// The URL of the licence's text.
    pub fn url(&self) -> (r: Option<&Uri>)
        ensures
            names_a_license(self@),
            match r {
                Some(u) => self@.url == Some(u@),
                None => self@.url is None,
            },
    {
        proof {
            use_type_invariant(self);
        }
        match &self.url {
            Some(u) => Some(u),
            None => None,
        }
    }

    /// A licence given by its full text.
    pub fn new_text(text: &str) -> (r: LicenseItem)
        ensures
            r@ == (LicenseItemView { text: Some(text@), ..nothing() }),
    {
        LicenseItem { spdx: None, url: None, text: Some(text.to_owned()), file: None, path: None }
    }

    /// The licence's full text.
    pub fn text(&self) -> (r: Option<&str>)
        ensures
            names_a_license(self@),
            match r {
                Some(s) => self@.text == Some(s@),
                None => self@.text is None,
            },
    {
        proof {
            use_type_invariant(self);
        }
        as_text(&self.text)
    }

    /// A licence whose text is in an object at a relative path.
    pub fn new_file(file: &str) -> (r: LicenseItem)
        ensures
            r@ == (LicenseItemView { file: Some(file@), ..nothing() }),
    {
        LicenseItem { spdx: None, url: None, text: None, file: Some(file.to_owned()), path: None }
    }

    /// The relative path of the object that holds the licence's text.
    pub fn file(&self) -> (r: Option<&str>)
        ensures
            names_a_license(self@),
            match r {
                Some(s) => self@.file == Some(s@),
                None => self@.file is None,
            },
    {
        proof {
            use_type_invariant(self);
        }
        as_text(&self.file)
    }

    /// The licence of the Zarr node at a relative path.
    pub fn new_path(path: &str) -> (r: LicenseItem)
        ensures
            r@ == (LicenseItemView { path: Some(path@), ..nothing() }),
    {
        LicenseItem { spdx: None, url: None, text: None, file: None, path: Some(path.to_owned()) }
    }

    /// The relative path of the Zarr node whose licence applies here too.
    pub fn path(&self) -> (r: Option<&str>)
        ensures
            names_a_license(self@),
            match r {
                Some(s) => self@.path == Some(s@),
                None => self@.path is None,
            },
    {
        proof {
            use_type_invariant(self);
        }
        as_text(&self.path)
    }
}

impl Clone for LicenseItemBuilder {
    fn clone(&self) -> (r: LicenseItemBuilder)
        ensures
            r@ == self@,
    {
        LicenseItemBuilder {
            spdx: copy_text(&self.spdx),
            url: copy_uri(&self.url),
            text: copy_text(&self.text),
            file: copy_text(&self.file),
            path: copy_text(&self.path),
            short: self.short,
        }
    }
}

impl Clone for License {
    fn clone(&self) -> (r: License)
        ensures
            r@ == self@,
    {
        let mut items: Vec<LicenseItem> = Vec::new();
        let mut i: usize = 0;
        while i < self.items.len()
            invariant
                0 <= i <= self.items@.len(),
                items@.len() == i,
                forall|j: int| 0 <= j < i ==> items@[j]@ == self.items@[j]@,
            decreases self.items@.len() - i,
        {
            items.push(self.items[i].clone());
            i += 1;
        }
        let r = License { items };
        assert(r@ =~= self@);
        r
    }
}

impl Default for LicenseItemBuilder {
    fn default() -> (b: LicenseItemBuilder)
        ensures
            b@ == (LicenseItemBuilderView { fields: nothing(), short: false }),
    {
        LicenseItemBuilder {
            spdx: None,
            url: None,
            text: None,
            file: None,
            path: None,
            short: false,
        }
    }
}

impl Default for License {
    fn default() -> (r: License)
        ensures
            r@ == Seq::<LicenseItemView>::empty(),
    {
        let r = License { items: Vec::new() };
        assert(r@ =~= Seq::<LicenseItemView>::empty());
        r
    }
}

impl LicenseItemBuilder {
    /// Whether to keep only the most preferred way of naming the licence.
    pub fn short(self, short: bool) -> (b: LicenseItemBuilder)
        ensures
            b@ == (LicenseItemBuilderView { short, ..self@ }),
    {
        LicenseItemBuilder { short, ..self }
    }

    /// The SPDX identifier of a single licence: preferred over all other ways.
    pub fn spdx(self, spdx: &str) -> (b: LicenseItemBuilder)
        ensures
            b@ == (LicenseItemBuilderView {
                fields: LicenseItemView { spdx: Some(spdx@), ..self@.fields },
                ..self@
            }),
    {
        LicenseItemBuilder { spdx: Some(spdx.to_owned()), ..self }
    }

    /// The URL of the licence's text: preferred over the text itself.
    pub fn url(self, url: Uri) -> (b: LicenseItemBuilder)
        ensures
            b@ == (LicenseItemBuilderView {
                fields: LicenseItemView { url: Some(url@), ..self@.fields },
                ..self@
            }),
    {
        LicenseItemBuilder { url: Some(url), ..self }
    }

    /// The licence's full text: preferred over a file.
    pub fn text(self, text: &str) -> (b: LicenseItemBuilder)
        ensures
            b@ == (LicenseItemBuilderView {
                fields: LicenseItemView { text: Some(text@), ..self@.fields },
                ..self@
            }),
    {
        LicenseItemBuilder { text: Some(text.to_owned()), ..self }
    }

    /// The relative path of a file with the licence's text: preferred over a
    /// path to another node.
    pub fn file(self, file: &str) -> (b: LicenseItemBuilder)
        ensures
            b@ == (LicenseItemBuilderView {
                fields: LicenseItemView { file: Some(file@), ..self@.fields },
                ..self@
            }),
    {
        LicenseItemBuilder { file: Some(file.to_owned()), ..self }
    }

    /// The relative path of a Zarr node whose licence applies: the least
    /// preferred way.
    pub fn path(self, path: &str) -> (b: LicenseItemBuilder)
        ensures
            b@ == (LicenseItemBuilderView {
                fields: LicenseItemView { path: Some(path@), ..self@.fields },
                ..self@
            }),
    {
        LicenseItemBuilder { path: Some(path.to_owned()), ..self }
    }

    /// The licence with the ways that were set, or with only the most
    /// preferred of them where `short` is on. Fails where none was set.
    pub fn build(self) -> (r: Result<LicenseItem, String>)
        ensures
            match r {
                Ok(item) => names_a_license(self@.fields) && item@ == if self@.short {
                    most_preferred(self@.fields)
                } else {
                    self@.fields
                },
                Err(message) => !names_a_license(self@.fields) && message@ == no_field_message(),
            },
    {
        let mut spdx = self.spdx;
        let mut url = self.url;
        let mut text = self.text;
        let mut file = self.file;
        let mut path = self.path;
        if self.short {
            let mut found = false;
            if spdx.is_some() {
                found = true;
            }
            if found {
                url = None;
            } else if url.is_some() {
                found = true;
            }
            if found {
                text = None;
            } else if text.is_some() {
                found = true;
            }
            if found {
                file = None;
            } else if file.is_some() {
                found = true;
            }
            if found {
                path = None;
            }
        }
        if spdx.is_none() && url.is_none() && text.is_none() && file.is_none() && path.is_none() {
            return Err("At least one field must be set for LicenseItem".to_owned());
        }
        Ok(LicenseItem { spdx, url, text, file, path })
    }
}

} // verus!
