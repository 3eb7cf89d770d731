use crate::error::RepoError;
use crate::record::{parse_record, record_parts, record_text, render_record};
use vstd::prelude::*;

verus! {

/// Key of `raw` when `raw` is a reference into `table`.
pub open spec fn key_in_table(raw: Seq<char>, table: Seq<char>) -> Option<Seq<char>> {
    match record_parts(raw) {
        Some(parts) => if parts.0 == table {
            Some(parts.1)
        } else {
            None
        },
        None => None,
    }
}

/// `r` is what parsing `raw` as an identifier of `table` yields: the key when `raw`
/// refers into `table`, else `InvalidInput`.
pub open spec fn parsed_as<I: View<V = Seq<char>>>(
    r: Result<I, RepoError>,
    raw: Seq<char>,
    table: Seq<char>,
) -> bool {
    match r {
        Ok(id) => key_in_table(raw, table) == Some(id@),
        Err(e) => key_in_table(raw, table) is None && e is InvalidInput,
    }
}

/// `text` is the reference of `key` in `table`: it reads back to that key there, and
/// to nothing in any other table.
pub open spec fn renders_as(text: Seq<char>, table: Seq<char>, key: Seq<char>) -> bool {
    &&& text == record_text(table, key)
    &&& key_in_table(text, table) == Some(key)
    &&& forall|other: Seq<char>| other != table ==> #[trigger] key_in_table(text, other) is None
}

/// Reading back the reference of an identifier gives that identifier: whatever parsing
/// the reference `text` of `key` in `table` as an identifier of `table` yields is `key`.
pub proof fn lemma_parse_of_rendered<I: View<V = Seq<char>>>(
    text: Seq<char>,
    table: Seq<char>,
    key: Seq<char>,
    r: Result<I, RepoError>,
)
    requires
        renders_as(text, table, key),
        parsed_as(r, text, table),
    ensures
        r is Ok,
        r->Ok_0@ == key,
{
}

/// A reference into one table never reads as an identifier of another: parsing the
/// reference `text` of `key` in `table` as an identifier of `other` is `InvalidInput`.
pub proof fn lemma_parse_of_other_kind<I: View<V = Seq<char>>>(
    text: Seq<char>,
    table: Seq<char>,
    other: Seq<char>,
    key: Seq<char>,
    r: Result<I, RepoError>,
)
    requires
        renders_as(text, table, key),
        other != table,
        parsed_as(r, text, other),
    ensures
        r matches Err(RepoError::InvalidInput(_)),
{
    assert(key_in_table(text, other) is None);
}

/// Reads the key of a reference into `table`.
fn parse_key(raw: &str, table: &str) -> (r: Result<String, RepoError>)
    ensures
        match r {
            Ok(key) => key_in_table(raw@, table@) == Some(key@),
            Err(e) => key_in_table(raw@, table@) is None && e is InvalidInput,
        },
{
    match parse_record(raw) {
        Some((found, key)) => {
            let wanted = table.to_owned();
            if found == wanted {
                Ok(key)
            } else {
                Err(RepoError::InvalidInput("not a ".to_owned().concat(table).concat(" id")))
            }
        },
        None => Err(RepoError::InvalidInput("malformed record id: ".to_owned().concat(raw))),
    }
}

/// Writes the reference of `key` in `table`.
fn render_key(table: &str, key: &str) -> (r: String)
    ensures
        renders_as(r@, table@, key@),
{
    let r = render_record(table, key);
    assert forall|other: Seq<char>| other != table@ implies #[trigger] key_in_table(
        r@,
        other,
    ) is None by {}
    r
}

/// Identifier of a folder: a key of the `folder` table.
#[derive(Debug, Eq, Hash)]
pub struct FolderId {
    key: String,
}

impl View for FolderId {
    type V = Seq<char>;

    closed spec fn view(&self) -> Seq<char> {
        self.key@
    }
}

impl Clone for FolderId {
    fn clone(&self) -> (r: Self)
        ensures
            r == *self,
    {
        FolderId { key: self.key.clone() }
    }
}

impl PartialEq for FolderId {
    fn eq(&self, other: &FolderId) -> (r: bool)
        ensures
            r == (self@ == other@),
    {
        self.key == other.key
    }
}

impl vstd::std_specs::cmp::PartialEqSpecImpl for FolderId {
    open spec fn obeys_eq_spec() -> bool {
        true
    }

    open spec fn eq_spec(&self, other: &FolderId) -> bool {
        self@ == other@
    }
}

impl FolderId {
    /// Reads a `folder:key` reference; a reference into any other table is refused.
    pub fn parse(raw: &str) -> (r: Result<FolderId, RepoError>)
        ensures
            parsed_as(r, raw@, "folder"@),
    {
        match parse_key(raw, "folder") {
            Ok(key) => Ok(FolderId { key }),
            Err(e) => Err(e),
        }
    }

    /// The `folder:key` reference of this identifier.
    pub fn to_wire_string(&self) -> (r: String)
        ensures
            renders_as(r@, "folder"@, self@),
    {
        render_key("folder", self.key.as_str())
    }

    /// The key within the `folder` table.
    pub fn key(&self) -> (r: &str)
        ensures
            r@ == self@,
    {
        self.key.as_str()
    }

    /// Identifier of a key that the library itself made; never fed from outside input.
    pub(crate) fn from_trusted_key(key: String) -> (r: FolderId)
        ensures
            r@ == key@,
    {
        FolderId { key }
    }

    /// The key, for comparing identifiers of this kind.
    pub(crate) fn key_string(&self) -> (r: &String)
        ensures
            r@ == self@,
    {
        &self.key
    }
}

/// Identifier of a project: a key of the `project` table.
#[derive(Debug, Eq, Hash)]
pub struct ProjectId {
    key: String,
}

impl View for ProjectId {
    type V = Seq<char>;

    closed spec fn view(&self) -> Seq<char> {
        self.key@
    }
}

impl Clone for ProjectId {
    fn clone(&self) -> (r: Self)
        ensures
            r == *self,
    {
        ProjectId { key: self.key.clone() }
    }
}

impl PartialEq for ProjectId {
    fn eq(&self, other: &ProjectId) -> (r: bool)
        ensures
            r == (self@ == other@),
    {
        self.key == other.key
    }
}

impl vstd::std_specs::cmp::PartialEqSpecImpl for ProjectId {
    open spec fn obeys_eq_spec() -> bool {
        true
    }

    open spec fn eq_spec(&self, other: &ProjectId) -> bool {
        self@ == other@
    }
}

impl ProjectId {
    /// Reads a `project:key` reference; a reference into any other table is refused.
    pub fn parse(raw: &str) -> (r: Result<ProjectId, RepoError>)
        ensures
            parsed_as(r, raw@, "project"@),
    {
        match parse_key(raw, "project") {
            Ok(key) => Ok(ProjectId { key }),
            Err(e) => Err(e),
        }
    }

    /// The `project:key` reference of this identifier.
    pub fn to_wire_string(&self) -> (r: String)
        ensures
            renders_as(r@, "project"@, self@),
    {
        render_key("project", self.key.as_str())
    }

    /// The key within the `project` table.
    pub fn key(&self) -> (r: &str)
        ensures
            r@ == self@,
    {
        self.key.as_str()
    }

    /// Identifier of a key that the library itself made; never fed from outside input.
    pub(crate) fn from_trusted_key(key: String) -> (r: ProjectId)
        ensures
            r@ == key@,
    {
        ProjectId { key }
    }

    /// The key, for comparing identifiers of this kind.
    pub(crate) fn key_string(&self) -> (r: &String)
        ensures
            r@ == self@,
    {
        &self.key
    }
}

/// Identifier of a list: a key of the `list` table.
#[derive(Debug, Eq, Hash)]
pub struct ListId {
    key: String,
}

impl View for ListId {
    type V = Seq<char>;

    closed spec fn view(&self) -> Seq<char> {
        self.key@
    }
}

impl Clone for ListId {
    fn clone(&self) -> (r: Self)
        ensures
            r == *self,
    {
        ListId { key: self.key.clone() }
    }
}

impl PartialEq for ListId {
    fn eq(&self, other: &ListId) -> (r: bool)
        ensures
            r == (self@ == other@),
    {
        self.key == other.key
    }
}

impl vstd::std_specs::cmp::PartialEqSpecImpl for ListId {
    open spec fn obeys_eq_spec() -> bool {
        true
    }

    open spec fn eq_spec(&self, other: &ListId) -> bool {
        self@ == other@
    }
}

impl ListId {
    /// Reads a `list:key` reference; a reference into any other table is refused.
    pub fn parse(raw: &str) -> (r: Result<ListId, RepoError>)
        ensures
            parsed_as(r, raw@, "list"@),
    {
        match parse_key(raw, "list") {
            Ok(key) => Ok(ListId { key }),
            Err(e) => Err(e),
        }
    }

    /// The `list:key` reference of this identifier.
    pub fn to_wire_string(&self) -> (r: String)
        ensures
            renders_as(r@, "list"@, self@),
    {
        render_key("list", self.key.as_str())
    }

    /// The key within the `list` table.
    pub fn key(&self) -> (r: &str)
        ensures
            r@ == self@,
    {
        self.key.as_str()
    }

    /// Identifier of a key that the library itself made; never fed from outside input.
    pub(crate) fn from_trusted_key(key: String) -> (r: ListId)
        ensures
            r@ == key@,
    {
        ListId { key }
    }

    /// The key, for comparing identifiers of this kind.
    pub(crate) fn key_string(&self) -> (r: &String)
        ensures
            r@ == self@,
    {
        &self.key
    }
}

/// Identifier of an item of a list: a key of the `list_item` table.
#[derive(Debug, Eq, Hash)]
pub struct ListItemId {
    key: String,
}

impl View for ListItemId {
    type V = Seq<char>;

    closed spec fn view(&self) -> Seq<char> {
        self.key@
    }
}

impl Clone for ListItemId {
    fn clone(&self) -> (r: Self)
        ensures
            r == *self,
    {
        ListItemId { key: self.key.clone() }
    }
}

impl PartialEq for ListItemId {
    fn eq(&self, other: &ListItemId) -> (r: bool)
        ensures
            r == (self@ == other@),
    {
        self.key == other.key
    }
}

impl vstd::std_specs::cmp::PartialEqSpecImpl for ListItemId {
    open spec fn obeys_eq_spec() -> bool {
        true
    }

    open spec fn eq_spec(&self, other: &ListItemId) -> bool {
        self@ == other@
    }
}

impl ListItemId {
    /// Reads a `list_item:key` reference; a reference into any other table is refused.
    pub fn parse(raw: &str) -> (r: Result<ListItemId, RepoError>)
        ensures
            parsed_as(r, raw@, "list_item"@),
    {
        match parse_key(raw, "list_item") {
            Ok(key) => Ok(ListItemId { key }),
            Err(e) => Err(e),
        }
    }

    /// The `list_item:key` reference of this identifier.
    pub fn to_wire_string(&self) -> (r: String)
        ensures
            renders_as(r@, "list_item"@, self@),
    {
        render_key("list_item", self.key.as_str())
    }

    /// The key within the `list_item` table.
    pub fn key(&self) -> (r: &str)
        ensures
            r@ == self@,
    {
        self.key.as_str()
    }

    /// Identifier of a key that the library itself made; never fed from outside input.
    pub(crate) fn from_trusted_key(key: String) -> (r: ListItemId)
        ensures
            r@ == key@,
    {
        ListItemId { key }
    }

    /// The key, for comparing identifiers of this kind.
    pub(crate) fn key_string(&self) -> (r: &String)
        ensures
            r@ == self@,
    {
        &self.key
    }
}

/// Identifier of a tag: a key of the `tag` table.
#[derive(Debug, Eq, Hash)]
pub struct TagId {
    key: String,
}

impl View for TagId {
    type V = Seq<char>;

    closed spec fn view(&self) -> Seq<char> {
        self.key@
    }
}

impl Clone for TagId {
    fn clone(&self) -> (r: Self)
        ensures
            r == *self,
    {
        TagId { key: self.key.clone() }
    }
}

impl PartialEq for TagId {
    fn eq(&self, other: &TagId) -> (r: bool)
        ensures
            r == (self@ == other@),
    {
        self.key == other.key
    }
}

impl vstd::std_specs::cmp::PartialEqSpecImpl for TagId {
    open spec fn obeys_eq_spec() -> bool {
        true
    }

    open spec fn eq_spec(&self, other: &TagId) -> bool {
        self@ == other@
    }
}

impl TagId {
    /// Reads a `tag:key` reference; a reference into any other table is refused.
    pub fn parse(raw: &str) -> (r: Result<TagId, RepoError>)
        ensures
            parsed_as(r, raw@, "tag"@),
    {
        match parse_key(raw, "tag") {
            Ok(key) => Ok(TagId { key }),
            Err(e) => Err(e),
        }
    }

    /// The `tag:key` reference of this identifier.
    pub fn to_wire_string(&self) -> (r: String)
        ensures
            renders_as(r@, "tag"@, self@),
    {
        render_key("tag", self.key.as_str())
    }

    /// The key within the `tag` table.
    pub fn key(&self) -> (r: &str)
        ensures
            r@ == self@,
    {
        self.key.as_str()
    }

    /// Identifier of a key that the library itself made; never fed from outside input.
    pub(crate) fn from_trusted_key(key: String) -> (r: TagId)
        ensures
            r@ == key@,
    {
        TagId { key }
    }

    /// The key, for comparing identifiers of this kind.
    pub(crate) fn key_string(&self) -> (r: &String)
        ensures
            r@ == self@,
    {
        &self.key
    }
}

/// Identifier of a catalog card: a key of the `card_core` table.
#[derive(Debug, Eq, Hash)]
pub struct CardCoreId {
    key: String,
}

impl View for CardCoreId {
    type V = Seq<char>;

    closed spec fn view(&self) -> Seq<char> {
        self.key@
    }
}

impl Clone for CardCoreId {
    fn clone(&self) -> (r: Self)
        ensures
            r == *self,
    {
        CardCoreId { key: self.key.clone() }
    }
}

impl PartialEq for CardCoreId {
    fn eq(&self, other: &CardCoreId) -> (r: bool)
        ensures
            r == (self@ == other@),
    {
        self.key == other.key
    }
}

impl vstd::std_specs::cmp::PartialEqSpecImpl for CardCoreId {
    open spec fn obeys_eq_spec() -> bool {
        true
    }

    open spec fn eq_spec(&self, other: &CardCoreId) -> bool {
        self@ == other@
    }
}

impl CardCoreId {
    /// Reads a `card_core:key` reference; a reference into any other table is refused.
    pub fn parse(raw: &str) -> (r: Result<CardCoreId, RepoError>)
        ensures
            parsed_as(r, raw@, "card_core"@),
    {
        match parse_key(raw, "card_core") {
            Ok(key) => Ok(CardCoreId { key }),
            Err(e) => Err(e),
        }
    }

    /// The `card_core:key` reference of this identifier.
    pub fn to_wire_string(&self) -> (r: String)
        ensures
            renders_as(r@, "card_core"@, self@),
    {
        render_key("card_core", self.key.as_str())
    }

    /// The key within the `card_core` table.
    pub fn key(&self) -> (r: &str)
        ensures
            r@ == self@,
    {
        self.key.as_str()
    }

    /// Identifier of a key that the library itself made; never fed from outside input.
    pub(crate) fn from_trusted_key(key: String) -> (r: CardCoreId)
        ensures
            r@ == key@,
    {
        CardCoreId { key }
    }

    /// The key, for comparing identifiers of this kind.
    pub(crate) fn key_string(&self) -> (r: &String)
        ensures
            r@ == self@,
    {
        &self.key
    }
}

/// Identifier of a printing of a catalog card: a key of the `card_printing` table.
#[derive(Debug, Eq, Hash)]
pub struct CardPrintingId {
    key: String,
}

impl View for CardPrintingId {
    type V = Seq<char>;

    closed spec fn view(&self) -> Seq<char> {
        self.key@
    }
}

impl Clone for CardPrintingId {
    fn clone(&self) -> (r: Self)
        ensures
            r == *self,
    {
        CardPrintingId { key: self.key.clone() }
    }
}

impl PartialEq for CardPrintingId {
    fn eq(&self, other: &CardPrintingId) -> (r: bool)
        ensures
            r == (self@ == other@),
    {
        self.key == other.key
    }
}

impl vstd::std_specs::cmp::PartialEqSpecImpl for CardPrintingId {
    open spec fn obeys_eq_spec() -> bool {
        true
    }

    open spec fn eq_spec(&self, other: &CardPrintingId) -> bool {
        self@ == other@
    }
}

impl CardPrintingId {
    /// Reads a `card_printing:key` reference; a reference into any other table is refused.
    pub fn parse(raw: &str) -> (r: Result<CardPrintingId, RepoError>)
        ensures
            parsed_as(r, raw@, "card_printing"@),
    {
        match parse_key(raw, "card_printing") {
            Ok(key) => Ok(CardPrintingId { key }),
            Err(e) => Err(e),
        }
    }

    /// The `card_printing:key` reference of this identifier.
    pub fn to_wire_string(&self) -> (r: String)
        ensures
            renders_as(r@, "card_printing"@, self@),
    {
        render_key("card_printing", self.key.as_str())
    }

    /// The key within the `card_printing` table.
    pub fn key(&self) -> (r: &str)
        ensures
            r@ == self@,
    {
        self.key.as_str()
    }

    /// Identifier of a key that the library itself made; never fed from outside input.
    pub(crate) fn from_trusted_key(key: String) -> (r: CardPrintingId)
        ensures
            r@ == key@,
    {
        CardPrintingId { key }
    }

    /// The key, for comparing identifiers of this kind.
    pub(crate) fn key_string(&self) -> (r: &String)
        ensures
            r@ == self@,
    {
        &self.key
    }
}

/// Identifier of a catalog set: a key of the `set` table.
#[derive(Debug, Eq, Hash)]
pub struct SetId {
    key: String,
}

impl View for SetId {
    type V = Seq<char>;

    closed spec fn view(&self) -> Seq<char> {
        self.key@
    }
}

impl Clone for SetId {
    fn clone(&self) -> (r: Self)
        ensures
            r == *self,
    {
        SetId { key: self.key.clone() }
    }
}

impl PartialEq for SetId {
    fn eq(&self, other: &SetId) -> (r: bool)
        ensures
            r == (self@ == other@),
    {
        self.key == other.key
    }
}

impl vstd::std_specs::cmp::PartialEqSpecImpl for SetId {
    open spec fn obeys_eq_spec() -> bool {
        true
    }

    open spec fn eq_spec(&self, other: &SetId) -> bool {
        self@ == other@
    }
}

impl SetId {
    /// Reads a `set:key` reference; a reference into any other table is refused.
    pub fn parse(raw: &str) -> (r: Result<SetId, RepoError>)
        ensures
            parsed_as(r, raw@, "set"@),
    {
        match parse_key(raw, "set") {
            Ok(key) => Ok(SetId { key }),
            Err(e) => Err(e),
        }
    }

    /// The `set:key` reference of this identifier.
    pub fn to_wire_string(&self) -> (r: String)
        ensures
            renders_as(r@, "set"@, self@),
    {
        render_key("set", self.key.as_str())
    }

    /// The key within the `set` table.
    pub fn key(&self) -> (r: &str)
        ensures
            r@ == self@,
    {
        self.key.as_str()
    }

    /// Identifier of a key that the library itself made; never fed from outside input.
    pub(crate) fn from_trusted_key(key: String) -> (r: SetId)
        ensures
            r@ == key@,
    {
        SetId { key }
    }

    /// The key, for comparing identifiers of this kind.
    pub(crate) fn key_string(&self) -> (r: &String)
        ensures
            r@ == self@,
    {
        &self.key
    }
}

/// Identifier of a catalog artist: a key of the `artist` table.
#[derive(Debug, Eq, Hash)]
pub struct ArtistId {
    key: String,
}

impl View for ArtistId {
    type V = Seq<char>;

    closed spec fn view(&self) -> Seq<char> {
        self.key@
    }
}

impl Clone for ArtistId {
    fn clone(&self) -> (r: Self)
        ensures
            r == *self,
    {
        ArtistId { key: self.key.clone() }
    }
}

impl PartialEq for ArtistId {
    fn eq(&self, other: &ArtistId) -> (r: bool)
        ensures
            r == (self@ == other@),
    {
        self.key == other.key
    }
}

impl vstd::std_specs::cmp::PartialEqSpecImpl for ArtistId {
    open spec fn obeys_eq_spec() -> bool {
        true
    }

    open spec fn eq_spec(&self, other: &ArtistId) -> bool {
        self@ == other@
    }
}

impl ArtistId {
    /// Reads a `artist:key` reference; a reference into any other table is refused.
    pub fn parse(raw: &str) -> (r: Result<ArtistId, RepoError>)
        ensures
            parsed_as(r, raw@, "artist"@),
    {
        match parse_key(raw, "artist") {
            Ok(key) => Ok(ArtistId { key }),
            Err(e) => Err(e),
        }
    }

    /// The `artist:key` reference of this identifier.
    pub fn to_wire_string(&self) -> (r: String)
        ensures
            renders_as(r@, "artist"@, self@),
    {
        render_key("artist", self.key.as_str())
    }

    /// The key within the `artist` table.
    pub fn key(&self) -> (r: &str)
        ensures
            r@ == self@,
    {
        self.key.as_str()
    }

    /// Identifier of a key that the library itself made; never fed from outside input.
    pub(crate) fn from_trusted_key(key: String) -> (r: ArtistId)
        ensures
            r@ == key@,
    {
        ArtistId { key }
    }

    /// The key, for comparing identifiers of this kind.
    pub(crate) fn key_string(&self) -> (r: &String)
        ensures
            r@ == self@,
    {
        &self.key
    }
}

/// Key of the root folder, which bootstrap provides.
pub open spec fn root_key() -> Seq<char> {
    "root"@
}

impl FolderId {
    /// Identifier of the root folder.
    pub fn root() -> (r: FolderId)
        ensures
            r@ == root_key(),
    {
        FolderId { key: "root".to_owned() }
    }
}

} // verus!
