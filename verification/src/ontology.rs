//! The ontology panel: browsing the entities of a database and what they belong to.
//!
//! The panel asks for the answers to some queries and is then moved on by what the database said.
//! A query that failed, like one that was not made, counts as one without rows.
use vstd::prelude::*;
use vstd::string::*;

use crate::panel;
use crate::panel::{DockPosition, Icon, ThemeColor};
use crate::text;
use crate::text::same_text;

verus! {

/// What the identifiers of the rows that stand for a whole type start with.
pub const TYPE_PREFIX: &'static str = "__type__:";

/// Where the database is looked for without a worktree that has it.
pub const FALLBACK_DB: &'static str = "/Users/zach/Projects/haak/infra/var/haak.db";

/// A row of the main list: an entity, or a type as a whole.
pub struct OntologyEntity {
    pub id: String,
    pub name: String,
    pub entity_type: String,
}

#[verifier::ext_equal]
pub struct EntityView {
    pub id: Seq<char>,
    pub name: Seq<char>,
    pub entity_type: Seq<char>,
}

impl View for OntologyEntity {
    type V = EntityView;

    open spec fn view(&self) -> EntityView {
        EntityView { id: self.id@, name: self.name@, entity_type: self.entity_type@ }
    }
}

/// A row of the details: something that an entity belongs to or contains.
pub struct BelongingRow {
    pub entity_id: String,
    pub entity_name: String,
    pub entity_type: String,
    pub quality: Option<String>,
}

#[verifier::ext_equal]
pub struct BelongingView {
    pub entity_id: Seq<char>,
    pub entity_name: Seq<char>,
    pub entity_type: Seq<char>,
    pub quality: Option<Seq<char>>,
}

impl View for BelongingRow {
    type V = BelongingView;

    open spec fn view(&self) -> BelongingView {
        BelongingView {
            entity_id: self.entity_id@,
            entity_name: self.entity_name@,
            entity_type: self.entity_type@,
            quality: text::option_view(self.quality),
        }
    }
}

impl Clone for BelongingRow {
    fn clone(&self) -> (r: BelongingRow)
        ensures
            r == *self,
    {
        BelongingRow {
            entity_id: self.entity_id.clone(),
            entity_name: self.entity_name.clone(),
            entity_type: self.entity_type.clone(),
            quality: copy_option(&self.quality),
        }
    }
}

/// A copy of an optional string.
fn copy_option(s: &Option<String>) -> (r: Option<String>)
    ensures
        r == *s,
{
    match s {
        Some(s) => Some(s.clone()),
        None => None,
    }
}

/// What the main list shows.
#[derive(Clone, Copy, Debug, PartialEq, Eq, Structural)]
pub enum ViewMode {
    TypeList,
    Search,
}

/// How many entities there are.
pub const COUNT_ENTITIES_SQL: &'static str = "SELECT CAST(COUNT(*) AS TEXT), '' FROM entities";

/// How many relations there are.
pub const COUNT_RELATIONS_SQL: &'static str = "SELECT CAST(COUNT(*) AS TEXT), '' FROM relations";

/// The types and how many entities each has, the most frequent first.
pub const TYPE_SUMMARY_SQL: &'static str = "SELECT type_ref, CAST(COUNT(*) AS TEXT) as c FROM entities GROUP BY type_ref ORDER BY COUNT(*) DESC";

/// The entities of a type, by name.
pub const ENTITIES_BY_TYPE_SQL: &'static str = "SELECT id, COALESCE(name, id), type_ref FROM entities WHERE type_ref = ? ORDER BY name LIMIT 500";

/// The entities whose names match a pattern, by type and name.
pub const SEARCH_SQL: &'static str = "SELECT id, COALESCE(name, id), type_ref FROM entities WHERE name LIKE ? ORDER BY type_ref, name LIMIT 200";

/// What an entity belongs to: the target, its type and the quality of the relation.
pub const BELONGS_TO_SQL: &'static str = "SELECT r.target_id, COALESCE(e.type_ref, '?'), r.quality_ref
         FROM relations r LEFT JOIN entities e ON e.id = r.target_id
         WHERE r.entity_id = ? ORDER BY r.quality_ref, r.target_id LIMIT 200";

/// What belongs to an entity, with the quality of the relation.
pub const CONTAINS_SQL: &'static str = "SELECT e.id, COALESCE(e.name, e.id), e.type_ref, r.quality_ref
         FROM relations r JOIN entities e ON e.id = r.entity_id
         WHERE r.target_id = ? ORDER BY e.type_ref, e.name LIMIT 200";

/// A question to the database.
pub enum Query {
    CountEntities,
    CountRelations,
    TypeSummary,
    EntitiesByType(String),
    Search(String),
    BelongsTo(String),
    Contains(String),
}

pub enum QueryView {
    CountEntities,
    CountRelations,
    TypeSummary,
    EntitiesByType(Seq<char>),
    Search(Seq<char>),
    BelongsTo(Seq<char>),
    Contains(Seq<char>),
}

impl View for Query {
    type V = QueryView;

    open spec fn view(&self) -> QueryView {
        match self {
            Query::CountEntities => QueryView::CountEntities,
            Query::CountRelations => QueryView::CountRelations,
            Query::TypeSummary => QueryView::TypeSummary,
            Query::EntitiesByType(s) => QueryView::EntitiesByType(s@),
            Query::Search(s) => QueryView::Search(s@),
            Query::BelongsTo(s) => QueryView::BelongsTo(s@),
            Query::Contains(s) => QueryView::Contains(s@),
        }
    }
}

/// The views of a list of queries.
pub open spec fn queries_view(queries: Seq<Query>) -> Seq<QueryView> {
    queries.map_values(|q: Query| q@)
}

impl QueryView {
    /// The query in SQL, with `?` for its parameter.
    pub open spec fn sql_of(self) -> Seq<char> {
        match self {
            QueryView::CountEntities => COUNT_ENTITIES_SQL@,
            QueryView::CountRelations => COUNT_RELATIONS_SQL@,
            QueryView::TypeSummary => TYPE_SUMMARY_SQL@,
            QueryView::EntitiesByType(_) => ENTITIES_BY_TYPE_SQL@,
            QueryView::Search(_) => SEARCH_SQL@,
            QueryView::BelongsTo(_) => BELONGS_TO_SQL@,
            QueryView::Contains(_) => CONTAINS_SQL@,
        }
    }

    /// The query's parameter: a search looks for names that hold the text anywhere.
    pub open spec fn parameter_of(self) -> Option<Seq<char>> {
        match self {
            QueryView::CountEntities => None,
            QueryView::CountRelations => None,
            QueryView::TypeSummary => None,
            QueryView::EntitiesByType(s) => Some(s),
            QueryView::Search(s) => Some("%"@ + s + "%"@),
            QueryView::BelongsTo(s) => Some(s),
            QueryView::Contains(s) => Some(s),
        }
    }
}

impl Query {
    /// The query in SQL, with `?` for its parameter.
    pub fn sql(&self) -> (r: &'static str)
        ensures
            r@ == self@.sql_of(),
    {
        match self {
            Query::CountEntities => COUNT_ENTITIES_SQL,
            Query::CountRelations => COUNT_RELATIONS_SQL,
            Query::TypeSummary => TYPE_SUMMARY_SQL,
            Query::EntitiesByType(_) => ENTITIES_BY_TYPE_SQL,
            Query::Search(_) => SEARCH_SQL,
            Query::BelongsTo(_) => BELONGS_TO_SQL,
            Query::Contains(_) => CONTAINS_SQL,
        }
    }

    /// The query's parameter.
    pub fn parameter(&self) -> (r: Option<String>)
        ensures
            text::option_view(r) == self@.parameter_of(),
    {
        match self {
            Query::CountEntities => None,
            Query::CountRelations => None,
            Query::TypeSummary => None,
            Query::EntitiesByType(s) => Some(s.clone()),
            Query::Search(s) => Some("%".to_owned().concat(s.as_str()).concat("%")),
            Query::BelongsTo(s) => Some(s.clone()),
            Query::Contains(s) => Some(s.clone()),
        }
    }
}

/// What the database said: the rows of each query that was made and did not fail.
pub struct Answers {
    pub entity_count: Option<Vec<(String, String)>>,
    pub relation_count: Option<Vec<(String, String)>>,
    pub types: Option<Vec<(String, String)>>,
    pub entities: Option<Vec<(String, String, String)>>,
    pub belongs_to: Option<Vec<(String, String, Option<String>)>>,
    pub contains: Option<Vec<(String, String, String, Option<String>)>>,
}

/// The number in the first row of a count; 0 where there is none that fits.
pub open spec fn count_in(rows: Option<Vec<(String, String)>>) -> nat {
    match rows {
        Some(v) => if v@.len() == 0 {
            0
        } else {
            match text::count_of(v@[0].0@) {
                Some(n) => if n <= usize::MAX {
                    n
                } else {
                    0
                },
                None => 0,
            }
        },
        None => 0,
    }
}

/// The row of the main list that stands for all entities of a type.
pub open spec fn type_row(entity_type: Seq<char>, count: Seq<char>) -> EntityView {
    EntityView {
        id: TYPE_PREFIX@ + entity_type,
        name: entity_type + " ("@ + count + ")"@,
        entity_type,
    }
}

/// The type that a row of the main list stands for, where it stands for one.
pub open spec fn type_in_id(id: Seq<char>) -> Option<Seq<char>> {
    text::without_prefix(id, TYPE_PREFIX@)
}

/// The main list for the types in the database.
pub open spec fn type_rows(rows: Option<Vec<(String, String)>>) -> Seq<EntityView> {
    match rows {
        Some(v) => v@.map_values(|r: (String, String)| type_row(r.0@, r.1@)),
        None => Seq::empty(),
    }
}

/// The main list for entities in the database.
pub open spec fn entity_rows(rows: Option<Vec<(String, String, String)>>) -> Seq<EntityView> {
    match rows {
        Some(v) => v@.map_values(
            |r: (String, String, String)|
                EntityView { id: r.0@, name: r.1@, entity_type: r.2@ },
        ),
        None => Seq::empty(),
    }
}

/// What an entity belongs to, each named by the last part of its identifier.
pub open spec fn belongs_to_rows(rows: Option<Vec<(String, String, Option<String>)>>) -> Seq<
    BelongingView,
> {
    match rows {
        Some(v) => v@.map_values(
            |r: (String, String, Option<String>)|
                BelongingView {
                    entity_id: r.0@,
                    entity_name: text::after_last_colon(r.0@),
                    entity_type: r.1@,
                    quality: text::option_view(r.2),
                },
        ),
        None => Seq::empty(),
    }
}

/// What an entity contains.
pub open spec fn contains_rows(
    rows: Option<Vec<(String, String, String, Option<String>)>>,
) -> Seq<BelongingView> {
    match rows {
        Some(v) => v@.map_values(
            |r: (String, String, String, Option<String>)|
                BelongingView {
                    entity_id: r.0@,
                    entity_name: r.1@,
                    entity_type: r.2@,
                    quality: text::option_view(r.3),
                },
        ),
        None => Seq::empty(),
    }
}

/// The views of the rows of the main list.
pub open spec fn entities_view(entities: Seq<OntologyEntity>) -> Seq<EntityView> {
    entities.map_values(|e: OntologyEntity| e@)
}

/// The views of rows of the details.
pub open spec fn belongings_view(rows: Seq<BelongingRow>) -> Seq<BelongingView> {
    rows.map_values(|r: BelongingRow| r@)
}

/// The number in the first row of a count.
fn query_count(rows: &Option<Vec<(String, String)>>) -> (r: usize)
    ensures
        r == count_in(*rows),
{
    match rows {
        Some(v) => {
            if v.len() == 0 {
                return 0;
            }
            match text::parse_count(v[0].0.as_str()) {
                Some(n) => n,
                None => 0,
            }
        },
        None => 0,
    }
}

/// How many entities and how many relations there are.
pub fn query_stats(
    entities: &Option<Vec<(String, String)>>,
    relations: &Option<Vec<(String, String)>>,
) -> (r: (usize, usize))
    ensures
        r.0 == count_in(*entities),
        r.1 == count_in(*relations),
{
    (query_count(entities), query_count(relations))
}

/// The main list for the types in the database.
pub fn query_type_summary(rows: &Option<Vec<(String, String)>>) -> (r: Vec<OntologyEntity>)
    ensures
        entities_view(r@) == type_rows(*rows),
{
    let mut out: Vec<OntologyEntity> = Vec::new();
    if let Some(v) = rows {
        let mut i: usize = 0;
        while i < v.len()
            invariant
                i <= v@.len(),
                *rows == Some(*v),
                entities_view(out@) == type_rows(*rows).take(i as int),
            decreases v@.len() - i,
        {
            let id = TYPE_PREFIX.to_owned().concat(v[i].0.as_str());
            let name = v[i].0.clone().concat(" (").concat(v[i].1.as_str()).concat(")");
            let row = OntologyEntity { id, name, entity_type: v[i].0.clone() };
            let ghost before = out@;
            out.push(row);
            proof {
                assert(row@ == type_rows(*rows)[i as int]);
                assert(entities_view(out@) == entities_view(before).push(row@));
                assert(entities_view(out@) == type_rows(*rows).take(i as int + 1));
            }
            i = i + 1;
        }
    }
    proof {
        assert(entities_view(out@) == type_rows(*rows));
    }
    out
}

/// The main list for rows that hold entities.
fn list_entities(rows: &Option<Vec<(String, String, String)>>) -> (r: Vec<OntologyEntity>)
    ensures
        entities_view(r@) == entity_rows(*rows),
{
    let mut out: Vec<OntologyEntity> = Vec::new();
    if let Some(v) = rows {
        let mut i: usize = 0;
        while i < v.len()
            invariant
                i <= v@.len(),
                *rows == Some(*v),
                entities_view(out@) == entity_rows(*rows).take(i as int),
            decreases v@.len() - i,
        {
            let row = OntologyEntity {
                id: v[i].0.clone(),
                name: v[i].1.clone(),
                entity_type: v[i].2.clone(),
            };
            let ghost before = out@;
            out.push(row);
            proof {
                assert(row@ == entity_rows(*rows)[i as int]);
                assert(entities_view(out@) == entities_view(before).push(row@));
                assert(entities_view(out@) == entity_rows(*rows).take(i as int + 1));
            }
            i = i + 1;
        }
    }
    proof {
        assert(entities_view(out@) == entity_rows(*rows));
    }
    out
}

/// The main list for the entities of a type.
pub fn query_entities_by_type(rows: &Option<Vec<(String, String, String)>>) -> (r: Vec<
    OntologyEntity,
>)
    ensures
        entities_view(r@) == entity_rows(*rows),
{
    list_entities(rows)
}

/// The main list for the entities that a search found.
pub fn query_search(rows: &Option<Vec<(String, String, String)>>) -> (r: Vec<OntologyEntity>)
    ensures
        entities_view(r@) == entity_rows(*rows),
{
    list_entities(rows)
}

/// What an entity belongs to.
pub fn query_belongs_to(rows: &Option<Vec<(String, String, Option<String>)>>) -> (r: Vec<
    BelongingRow,
>)
    ensures
        belongings_view(r@) == belongs_to_rows(*rows),
{
    let mut out: Vec<BelongingRow> = Vec::new();
    if let Some(v) = rows {
        let mut i: usize = 0;
        while i < v.len()
            invariant
                i <= v@.len(),
                *rows == Some(*v),
                belongings_view(out@) == belongs_to_rows(*rows).take(i as int),
            decreases v@.len() - i,
        {
            let row = BelongingRow {
                entity_id: v[i].0.clone(),
                entity_name: text::last_segment(v[i].0.as_str()),
                entity_type: v[i].1.clone(),
                quality: copy_option(&v[i].2),
            };
            let ghost before = out@;
            out.push(row);
            proof {
                assert(row@ == belongs_to_rows(*rows)[i as int]);
                assert(belongings_view(out@) == belongings_view(before).push(row@));
                assert(belongings_view(out@) == belongs_to_rows(*rows).take(i as int + 1));
            }
            i = i + 1;
        }
    }
    proof {
        assert(belongings_view(out@) == belongs_to_rows(*rows));
    }
    out
}

/// What an entity contains.
pub fn query_contains(rows: &Option<Vec<(String, String, String, Option<String>)>>) -> (r: Vec<
    BelongingRow,
>)
    ensures
        belongings_view(r@) == contains_rows(*rows),
{
    let mut out: Vec<BelongingRow> = Vec::new();
    if let Some(v) = rows {
        let mut i: usize = 0;
        while i < v.len()
            invariant
                i <= v@.len(),
                *rows == Some(*v),
                belongings_view(out@) == contains_rows(*rows).take(i as int),
            decreases v@.len() - i,
        {
            let row = BelongingRow {
                entity_id: v[i].0.clone(),
                entity_name: v[i].1.clone(),
                entity_type: v[i].2.clone(),
                quality: copy_option(&v[i].3),
            };
            let ghost before = out@;
            out.push(row);
            proof {
                assert(row@ == contains_rows(*rows)[i as int]);
                assert(belongings_view(out@) == belongings_view(before).push(row@));
                assert(belongings_view(out@) == contains_rows(*rows).take(i as int + 1));
            }
            i = i + 1;
        }
    }
    proof {
        assert(belongings_view(out@) == contains_rows(*rows));
    }
    out
}

/// Where a database is; the text of its path is missing where the path is no valid Unicode.
pub struct DbPath {
    pub text: Option<String>,
}

impl View for DbPath {
    type V = Option<Seq<char>>;

    open spec fn view(&self) -> Option<Seq<char>> {
        text::option_view(self.text)
    }
}

impl Clone for DbPath {
    fn clone(&self) -> (r: DbPath)
        ensures
            r == *self,
    {
        DbPath { text: copy_option(&self.text) }
    }
}

/// The path at which a database is opened; `None` where it cannot be.
pub fn open_db(path: &DbPath) -> (r: Option<String>)
    ensures
        text::option_view(r) == path@,
{
    copy_option(&path.text)
}

/// A place where the database may be, and whether there is a file.
pub struct DbCandidate {
    pub path: DbPath,
    pub exists: bool,
}

/// Where in a worktree the database is looked for, the first place first.
pub fn db_candidates() -> (r: Vec<&'static str>)
    ensures
        r@.len() == 2,
        r@[0]@ == "infra/var/haak.db"@,
        r@[1]@ == "data/entities.db"@,
{
    let mut out: Vec<&'static str> = Vec::new();
    out.push("infra/var/haak.db");
    out.push("data/entities.db");
    out
}

/// The first place of a list at which there is a file.
pub open spec fn first_existing(candidates: Seq<DbCandidate>) -> Option<DbPath>
    decreases candidates.len(),
{
    if candidates.len() == 0 {
        None
    } else if candidates[0].exists {
        Some(candidates[0].path)
    } else {
        first_existing(candidates.skip(1))
    }
}

/// The database to show: the first that the worktree has, or else the fallback if it is there.
pub open spec fn chosen_db(worktree: Option<Vec<DbCandidate>>, fallback: DbCandidate) -> Option<
    DbPath,
> {
    let found = match worktree {
        Some(v) => first_existing(v@),
        None => None,
    };
    if found is Some {
        found
    } else if fallback.exists {
        Some(fallback.path)
    } else {
        None
    }
}

/// Chooses the database to show. `worktree` holds the places in the first worktree, where there is
/// one.
pub fn choose_db(worktree: &Option<Vec<DbCandidate>>, fallback: &DbCandidate) -> (r: Option<DbPath>)
    ensures
        r == chosen_db(*worktree, *fallback),
{
    if let Some(v) = worktree {
        let mut i: usize = 0;
        proof {
            assert(v@.skip(0) == v@);
        }
        while i < v.len()
            invariant
                i <= v@.len(),
                *worktree == Some(*v),
                first_existing(v@) == first_existing(v@.skip(i as int)),
            decreases v@.len() - i,
        {
            if v[i].exists {
                return Some(v[i].path.clone());
            }
            proof {
                assert(v@.skip(i as int).skip(1) == v@.skip(i as int + 1));
            }
            i = i + 1;
        }
    }
    if fallback.exists {
        Some(fallback.path.clone())
    } else {
        None
    }
}

/// The ontology panel.
pub struct OntologyPanel {
    pub db_path: Option<DbPath>,
    /// The main list, and which of its rows is selected.
    pub entities: Vec<OntologyEntity>,
    pub selected_idx: Option<usize>,
    /// The details of the entity that was last gone to.
    pub belongs_to: Vec<BelongingRow>,
    pub contains: Vec<BelongingRow>,
    /// The entities that were gone to, and which of them is the current one.
    pub history: Vec<String>,
    pub history_pos: Option<usize>,
    pub search_query: String,
    pub view_mode: ViewMode,
    pub total_entities: usize,
    pub total_belongings: usize,
}

/// The ontology panel, in contracts.
#[verifier::ext_equal]
pub struct PanelView {
    pub db_path: Option<Option<Seq<char>>>,
    pub entities: Seq<EntityView>,
    pub selected_idx: Option<int>,
    pub belongs_to: Seq<BelongingView>,
    pub contains: Seq<BelongingView>,
    pub history: Seq<Seq<char>>,
    pub history_pos: Option<int>,
    pub search_query: Seq<char>,
    pub view_mode: ViewMode,
    pub total_entities: nat,
    pub total_belongings: nat,
}

/// The view of an optional index.
pub open spec fn index_view(i: Option<usize>) -> Option<int> {
    match i {
        Some(i) => Some(i as int),
        None => None,
    }
}

/// The view of an optional path.
pub open spec fn path_view(path: Option<DbPath>) -> Option<Option<Seq<char>>> {
    match path {
        Some(p) => Some(p@),
        None => None,
    }
}

/// The views of a list of identifiers.
pub open spec fn history_view(history: Seq<String>) -> Seq<Seq<char>> {
    history.map_values(|s: String| s@)
}

impl View for OntologyPanel {
    type V = PanelView;

    open spec fn view(&self) -> PanelView {
        PanelView {
            db_path: path_view(self.db_path),
            entities: entities_view(self.entities@),
            selected_idx: index_view(self.selected_idx),
            belongs_to: belongings_view(self.belongs_to@),
            contains: belongings_view(self.contains@),
            history: history_view(self.history@),
            history_pos: index_view(self.history_pos),
            search_query: self.search_query@,
            view_mode: self.view_mode,
            total_entities: self.total_entities as nat,
            total_belongings: self.total_belongings as nat,
        }
    }
}

/// The index of the first row for `id` in the main list.
pub open spec fn position_of(entities: Seq<EntityView>, id: Seq<char>) -> Option<int>
    decreases entities.len(),
{
    if entities.len() == 0 {
        None
    } else {
        match position_of(entities.drop_last(), id) {
            Some(i) => Some(i),
            None => if entities.last().id == id {
                Some(entities.len() - 1)
            } else {
                None
            },
        }
    }
}

/// Whether a database at `path` can be opened.
pub open spec fn opens(path: Option<Option<Seq<char>>>) -> bool {
    path matches Some(Some(_))
}

/// Whether the current place in the history is one of it, and the selected row, if any, is one of
/// the main list: with a database that opens, the one for the current place.
pub open spec fn panel_wf(p: PanelView) -> bool {
    &&& match p.history_pos {
        Some(k) => 0 <= k < p.history.len(),
        None => p.history.len() == 0,
    }
    &&& p.selected_idx matches Some(i) ==> {
        &&& 0 <= i < p.entities.len()
        &&& opens(p.db_path) ==> (p.history_pos matches Some(k) && position_of(
            p.entities,
            p.history[k],
        ) == Some(i))
    }
}

proof fn lemma_position_of(entities: Seq<EntityView>, id: Seq<char>)
    ensures
        position_of(entities, id) matches Some(i) ==> 0 <= i < entities.len() && entities[i].id
            == id,
    decreases entities.len(),
{
    if entities.len() > 0 {
        lemma_position_of(entities.drop_last(), id);
    }
}

/// The panel `p` without a selection or details.
pub open spec fn unselected(p: PanelView) -> PanelView {
    PanelView { selected_idx: None, belongs_to: Seq::empty(), contains: Seq::empty(), ..p }
}

/// The panel `p` with the details of the current place in its history.
pub open spec fn with_details(
    p: PanelView,
    belongs_to: Seq<BelongingView>,
    contains: Seq<BelongingView>,
) -> PanelView {
    PanelView {
        selected_idx: position_of(p.entities, p.history[p.history_pos.unwrap()]),
        belongs_to,
        contains,
        ..p
    }
}

/// The history of `p` up to its current place, and `id` after that.
pub open spec fn history_with(p: PanelView, id: Seq<char>) -> Seq<Seq<char>> {
    match p.history_pos {
        Some(k) => p.history.take(k + 1),
        None => p.history,
    }.push(id)
}

/// The panel `p` after going to the row `id`: the entities of a type, or the details of an entity,
/// which becomes the last place in the history.
pub open spec fn after_navigate(p: PanelView, id: Seq<char>, a: Answers) -> PanelView {
    if !opens(p.db_path) {
        p
    } else if type_in_id(id) is Some {
        PanelView {
            entities: entity_rows(a.entities),
            view_mode: ViewMode::TypeList,
            ..unselected(p)
        }
    } else {
        let history = history_with(p, id);
        with_details(
            PanelView { history, history_pos: Some(history.len() - 1), ..p },
            belongs_to_rows(a.belongs_to),
            contains_rows(a.contains),
        )
    }
}

/// What to ask the database before going to the row `id`.
pub open spec fn navigate_queries_of(p: PanelView, id: Seq<char>) -> Seq<QueryView> {
    if !opens(p.db_path) {
        Seq::empty()
    } else {
        match type_in_id(id) {
            Some(t) => seq![QueryView::EntitiesByType(t)],
            None => seq![QueryView::BelongsTo(id), QueryView::Contains(id)],
        }
    }
}

/// The panel `p` after going back one place in the history, where there is one. Without a database
/// that opens, the place is gone back to and the details stay.
pub open spec fn after_back(p: PanelView, a: Answers) -> PanelView {
    match p.history_pos {
        Some(k) => if k > 0 {
            let moved = PanelView { history_pos: Some(k - 1), ..p };
            if opens(p.db_path) {
                with_details(moved, belongs_to_rows(a.belongs_to), contains_rows(a.contains))
            } else {
                moved
            }
        } else {
            p
        },
        None => p,
    }
}

/// What to ask the database before going back.
pub open spec fn back_queries_of(p: PanelView) -> Seq<QueryView> {
    match p.history_pos {
        Some(k) => if k > 0 && opens(p.db_path) {
            let id = p.history[k - 1];
            seq![QueryView::BelongsTo(id), QueryView::Contains(id)]
        } else {
            Seq::empty()
        },
        None => Seq::empty(),
    }
}

/// The panel `p` after going home to the list of types.
pub open spec fn after_home(p: PanelView, a: Answers) -> PanelView {
    if !opens(p.db_path) {
        p
    } else {
        PanelView {
            entities: type_rows(a.types),
            search_query: ""@,
            view_mode: ViewMode::TypeList,
            ..unselected(p)
        }
    }
}

/// Whether a search is too short to be made: less than two bytes.
pub open spec fn too_short(query: Seq<char>) -> bool {
    vstd::utf8::encode_utf8(query).len() < 2
}

/// The panel `p` after a search.
pub open spec fn after_search(p: PanelView, a: Answers) -> PanelView {
    if too_short(p.search_query) || !opens(p.db_path) {
        p
    } else {
        PanelView {
            entities: entity_rows(a.entities),
            view_mode: ViewMode::Search,
            ..unselected(p)
        }
    }
}

/// The colour in which the panel writes a type.
pub open spec fn type_color_of(entity_type: Seq<char>) -> ThemeColor {
    if entity_type == "project"@ {
        ThemeColor::Blue
    } else if entity_type == "persona"@ {
        ThemeColor::Green
    } else if entity_type == "foundation"@ {
        ThemeColor::Yellow
    } else if entity_type == "pattern"@ {
        ThemeColor::Magenta
    } else if entity_type == "person"@ {
        ThemeColor::Cyan
    } else if entity_type == "paper"@ {
        ThemeColor::Red
    } else if entity_type == "tag"@ {
        ThemeColor::BrightGreen
    } else if entity_type == "track"@ {
        ThemeColor::BrightMagenta
    } else if entity_type == "file"@ {
        ThemeColor::TextMuted
    } else {
        ThemeColor::TextDisabled
    }
}

/// What the panel shows of a row of the main list.
pub struct EntityRow {
    pub background: ThemeColor,
    pub type_color: ThemeColor,
    pub entity_type: String,
    pub name: String,
}

/// What the panel shows of a row of the details, and the row to go to from it.
pub struct DetailRow {
    pub quality: Option<String>,
    pub type_color: ThemeColor,
    pub entity_type: String,
    pub name: String,
    pub target: String,
}

/// A part of the details: its header and its rows.
pub struct Section {
    pub header: String,
    pub rows: Vec<BelongingRow>,
}

/// The details under the main list.
pub struct Details {
    pub belongs_to: Option<Section>,
    pub contains: Option<Section>,
    /// What stands there in place of both.
    pub note: Option<&'static str>,
}

/// The selected row, above the main list.
pub struct SelectedHeader {
    pub type_color: ThemeColor,
    pub entity_type: String,
    pub name: String,
}

/// What is under the headers.
pub enum Body {
    /// The main list, of this many rows, and the details of a selected row.
    List { rows: usize, details: Option<Details> },
    /// A note that there is no database.
    NoDatabase(&'static str),
}

/// What the panel shows.
pub struct PanelScreen {
    pub stats: String,
    pub home: &'static str,
    pub selected: Option<SelectedHeader>,
    pub body: Body,
}

/// The header of a part of the details.
pub open spec fn section_header_of(label: Seq<char>, count: nat) -> Seq<char> {
    label + " ("@ + text::decimal(count) + ")"@
}

/// Whether `s` shows `rows` under `label`: not at all where there are none.
pub open spec fn shows_section(
    s: Option<Section>,
    label: Seq<char>,
    rows: Seq<BelongingView>,
) -> bool {
    match s {
        Some(s) => {
            &&& rows.len() > 0
            &&& s.header@ == section_header_of(label, rows.len())
            &&& belongings_view(s.rows@) == rows
        },
        None => rows.len() == 0,
    }
}

/// Whether `d` shows the details of `p`, which has a selected row.
pub open spec fn shows_details(d: Details, p: PanelView) -> bool {
    &&& shows_section(d.belongs_to, "belongs to"@, p.belongs_to)
    &&& shows_section(d.contains, "contains"@, p.contains)
    &&& match d.note {
        Some(note) => {
            &&& note@ == "no connections"@
            &&& p.belongs_to.len() == 0
            &&& p.contains.len() == 0
        },
        None => p.belongs_to.len() > 0 || p.contains.len() > 0,
    }
}

impl OntologyPanel {
    /// What to ask the database before a panel is made.
    pub fn initial_queries(db_path: &Option<DbPath>) -> (r: Vec<Query>)
        ensures
            queries_view(r@) == (if opens(path_view(*db_path)) {
                seq![QueryView::CountEntities, QueryView::CountRelations, QueryView::TypeSummary]
            } else {
                Seq::empty()
            }),
    {
        let mut out: Vec<Query> = Vec::new();
        if has_text(db_path) {
            out.push(Query::CountEntities);
            out.push(Query::CountRelations);
            out.push(Query::TypeSummary);
        }
        out
    }

    /// A panel that shows the types in a database, where there is one to open.
    pub fn new(db_path: Option<DbPath>, answers: &Answers) -> (r: OntologyPanel)
        ensures
            panel_wf(r@),
            r@ == (PanelView {
                db_path: path_view(db_path),
                entities: if opens(path_view(db_path)) {
                    type_rows(answers.types)
                } else {
                    Seq::empty()
                },
                selected_idx: None,
                belongs_to: Seq::empty(),
                contains: Seq::empty(),
                history: Seq::empty(),
                history_pos: None,
                search_query: ""@,
                view_mode: ViewMode::TypeList,
                total_entities: if opens(path_view(db_path)) {
                    count_in(answers.entity_count)
                } else {
                    0
                },
                total_belongings: if opens(path_view(db_path)) {
                    count_in(answers.relation_count)
                } else {
                    0
                },
            }),
    {
        let (entities, stats) = if has_text(&db_path) {
            (
                query_type_summary(&answers.types),
                query_stats(&answers.entity_count, &answers.relation_count),
            )
        } else {
            (Vec::new(), (0, 0))
        };
        let r = OntologyPanel {
            db_path,
            entities,
            selected_idx: None,
            belongs_to: Vec::new(),
            contains: Vec::new(),
            history: Vec::new(),
            history_pos: None,
            search_query: "".to_owned(),
            view_mode: ViewMode::TypeList,
            total_entities: stats.0,
            total_belongings: stats.1,
        };
        proof {
            assert(r@.belongs_to == Seq::<BelongingView>::empty());
            assert(r@.contains == Seq::<BelongingView>::empty());
            assert(r@.history == Seq::<Seq<char>>::empty());
            assert(!opens(path_view(db_path)) ==> r@.entities == Seq::<EntityView>::empty());
        }
        r
    }

    /// The path at which the panel's database is opened; `None` where there is none to open.
    pub fn database(&self) -> (r: Option<String>)
        ensures
            text::option_view(r) == (match self@.db_path {
                Some(path) => path,
                None => None,
            }),
    {
        match &self.db_path {
            Some(path) => open_db(path),
            None => None,
        }
    }

    /// The index of the first row for `id` in the main list.
    fn find(&self, id: &str) -> (r: Option<usize>)
        ensures
            index_view(r) == position_of(self@.entities, id@),
    {
        let mut i: usize = 0;
        proof {
            assert(self@.entities.take(0) == Seq::<EntityView>::empty());
        }
        while i < self.entities.len()
            invariant
                i <= self.entities@.len(),
                position_of(self@.entities.take(i as int), id@) is None,
            decreases self.entities@.len() - i,
        {
            proof {
                let rows = self@.entities;
                assert(rows.take(i as int + 1).drop_last() == rows.take(i as int));
                assert(rows[i as int] == self.entities@[i as int]@);
            }
            if same_text(self.entities[i].id.as_str(), id) {
                proof {
                    lemma_position_of_prefix(self@.entities, i as int + 1, id@);
                }
                return Some(i);
            }
            i = i + 1;
        }
        proof {
            assert(self@.entities.take(self.entities@.len() as int) == self@.entities);
        }
        None
    }

    /// What to ask the database before going to the row `id`.
    pub fn navigate_queries(&self, id: &str) -> (r: Vec<Query>)
        ensures
            queries_view(r@) == navigate_queries_of(self@, id@),
    {
        let mut out: Vec<Query> = Vec::new();
        if has_text(&self.db_path) {
            match text::strip_prefix(id, TYPE_PREFIX) {
                Some(t) => {
                    out.push(Query::EntitiesByType(t));
                },
                None => {
                    out.push(Query::BelongsTo(id.to_owned()));
                    out.push(Query::Contains(id.to_owned()));
                },
            }
        }
        proof {
            assert(queries_view(out@) == navigate_queries_of(self@, id@));
        }
        out
    }

    /// Drops the selection and the details.
    fn unselect(&mut self)
        ensures
            final(self)@ == unselected(old(self)@),
    {
        self.selected_idx = None;
        self.belongs_to = Vec::new();
        self.contains = Vec::new();
        proof {
            assert(self@.belongs_to == Seq::<BelongingView>::empty());
            assert(self@.contains == Seq::<BelongingView>::empty());
        }
    }

    /// Goes to the row `id`, of the main list or of the details. Whether the panel is to be drawn
    /// again is handed back, here and below.
    pub fn navigate_to(&mut self, id: &str, answers: &Answers) -> (r: bool)
        requires
            panel_wf(old(self)@),
        ensures
            panel_wf(final(self)@),
            final(self)@ == after_navigate(old(self)@, id@, *answers),
            r == opens(old(self)@.db_path),
    {
        if !has_text(&self.db_path) {
            return false;
        }
        if text::strip_prefix(id, TYPE_PREFIX).is_some() {
            self.unselect();
            self.entities = query_entities_by_type(&answers.entities);
            self.view_mode = ViewMode::TypeList;
            return true;
        }
        if let Some(pos) = self.history_pos {
            let last: usize = self.history.len() - 1;
            if pos < last {
                self.history.truncate(pos + 1);
            }
        }
        self.history.push(id.to_owned());
        self.history_pos = Some(self.history.len() - 1);
        self.belongs_to = query_belongs_to(&answers.belongs_to);
        self.contains = query_contains(&answers.contains);
        self.selected_idx = self.find(id);
        proof {
            lemma_position_of(self@.entities, id@);
            assert(self@.history == history_with(old(self)@, id@));
        }
        true
    }

    /// What to ask the database before going back.
    pub fn back_queries(&self) -> (r: Vec<Query>)
        requires
            panel_wf(self@),
        ensures
            queries_view(r@) == back_queries_of(self@),
    {
        let mut out: Vec<Query> = Vec::new();
        if let Some(pos) = self.history_pos {
            if pos > 0 && has_text(&self.db_path) {
                out.push(Query::BelongsTo(self.history[pos - 1].clone()));
                out.push(Query::Contains(self.history[pos - 1].clone()));
            }
        }
        proof {
            assert(queries_view(out@) == back_queries_of(self@));
        }
        out
    }

    /// Goes back one place in the history. Returns whether there is something new to draw.
    pub fn go_back(&mut self, answers: &Answers) -> (r: bool)
        requires
            panel_wf(old(self)@),
        ensures
            panel_wf(final(self)@),
            final(self)@ == after_back(old(self)@, *answers),
            r == (opens(old(self)@.db_path) && (old(self)@.history_pos matches Some(k) && k > 0)),
    {
        if let Some(pos) = self.history_pos {
            if pos > 0 {
                self.history_pos = Some(pos - 1);
                if !has_text(&self.db_path) {
                    return false;
                }
                self.belongs_to = query_belongs_to(&answers.belongs_to);
                self.contains = query_contains(&answers.contains);
                self.selected_idx = self.find(self.history[pos - 1].as_str());
                proof {
                    lemma_position_of(self@.entities, self@.history[pos - 1]);
                }
                return true;
            }
        }
        false
    }

    /// What to ask the database before going home.
    pub fn type_list_queries(&self) -> (r: Vec<Query>)
        ensures
            queries_view(r@) == (if opens(self@.db_path) {
                seq![QueryView::TypeSummary]
            } else {
                Seq::empty()
            }),
    {
        let mut out: Vec<Query> = Vec::new();
        if has_text(&self.db_path) {
            out.push(Query::TypeSummary);
        }
        out
    }

    /// Goes home to the list of types.
    pub fn show_type_list(&mut self, answers: &Answers) -> (r: bool)
        requires
            panel_wf(old(self)@),
        ensures
            panel_wf(final(self)@),
            final(self)@ == after_home(old(self)@, *answers),
            r == opens(old(self)@.db_path),
    {
        if !has_text(&self.db_path) {
            return false;
        }
        self.unselect();
        self.entities = query_type_summary(&answers.types);
        self.search_query = "".to_owned();
        self.view_mode = ViewMode::TypeList;
        true
    }

    /// What to ask the database before a search.
    pub fn search_queries(&self) -> (r: Vec<Query>)
        ensures
            queries_view(r@) == (if opens(self@.db_path) && !too_short(self@.search_query) {
                seq![QueryView::Search(self@.search_query)]
            } else {
                Seq::empty()
            }),
    {
        let mut out: Vec<Query> = Vec::new();
        if self.search_query.as_str().as_bytes().len() >= 2 && has_text(&self.db_path) {
            out.push(Query::Search(self.search_query.clone()));
        }
        out
    }

    /// Shows what a search found.
    pub fn do_search(&mut self, answers: &Answers) -> (r: bool)
        requires
            panel_wf(old(self)@),
        ensures
            panel_wf(final(self)@),
            final(self)@ == after_search(old(self)@, *answers),
            r == (!too_short(old(self)@.search_query) && opens(old(self)@.db_path)),
    {
        if self.search_query.as_str().as_bytes().len() < 2 {
            return false;
        }
        if !has_text(&self.db_path) {
            return false;
        }
        self.unselect();
        self.entities = query_search(&answers.entities);
        self.view_mode = ViewMode::Search;
        true
    }

    /// What to ask the database before going to a row of the main list.
    pub fn select_queries(&self, ix: usize) -> (r: Vec<Query>)
        requires
            ix < self@.entities.len(),
        ensures
            queries_view(r@) == navigate_queries_of(self@, self@.entities[ix as int].id),
    {
        self.navigate_queries(self.entities[ix].id.as_str())
    }

    /// Goes to a row of the main list.
    pub fn select_entity(&mut self, ix: usize, answers: &Answers) -> (r: bool)
        requires
            panel_wf(old(self)@),
            ix < old(self)@.entities.len(),
        ensures
            panel_wf(final(self)@),
            final(self)@ == after_navigate(
                old(self)@,
                old(self)@.entities[ix as int].id,
                *answers,
            ),
            r == opens(old(self)@.db_path),
    {
        let id = self.entities[ix].id.clone();
        self.navigate_to(id.as_str(), answers)
    }

    /// Goes to a row of the details.
    pub fn select_belonging(&mut self, id: &str, answers: &Answers) -> (r: bool)
        requires
            panel_wf(old(self)@),
        ensures
            panel_wf(final(self)@),
            final(self)@ == after_navigate(old(self)@, id@, *answers),
            r == opens(old(self)@.db_path),
    {
        self.navigate_to(id, answers)
    }
}

impl OntologyPanel {
    /// The colour in which the panel writes a type.
    pub fn type_color(&self, entity_type: &str) -> (r: ThemeColor)
        ensures
            r == type_color_of(entity_type@),
    {
        if same_text(entity_type, "project") {
            ThemeColor::Blue
        } else if same_text(entity_type, "persona") {
            ThemeColor::Green
        } else if same_text(entity_type, "foundation") {
            ThemeColor::Yellow
        } else if same_text(entity_type, "pattern") {
            ThemeColor::Magenta
        } else if same_text(entity_type, "person") {
            ThemeColor::Cyan
        } else if same_text(entity_type, "paper") {
            ThemeColor::Red
        } else if same_text(entity_type, "tag") {
            ThemeColor::BrightGreen
        } else if same_text(entity_type, "track") {
            ThemeColor::BrightMagenta
        } else if same_text(entity_type, "file") {
            ThemeColor::TextMuted
        } else {
            ThemeColor::TextDisabled
        }
    }

    /// What the panel shows of a row of the main list.
    pub fn render_entity_row(&self, ix: usize) -> (r: EntityRow)
        requires
            ix < self@.entities.len(),
        ensures
            r.background == (if self@.selected_idx == Some(ix as int) {
                ThemeColor::ElementSelected
            } else {
                ThemeColor::Transparent
            }),
            r.type_color == type_color_of(self@.entities[ix as int].entity_type),
            r.entity_type@ == self@.entities[ix as int].entity_type,
            r.name@ == self@.entities[ix as int].name,
    {
        let entity = &self.entities[ix];
        let selected = match self.selected_idx {
            Some(i) => i == ix,
            None => false,
        };
        EntityRow {
            background: if selected {
                ThemeColor::ElementSelected
            } else {
                ThemeColor::Transparent
            },
            type_color: self.type_color(entity.entity_type.as_str()),
            entity_type: entity.entity_type.clone(),
            name: entity.name.clone(),
        }
    }

    /// What the panel shows of a row of the details: a quality only where it is not empty.
    pub fn render_belonging_row(&self, row: &BelongingRow) -> (r: DetailRow)
        ensures
            text::option_view(r.quality) == (match row@.quality {
                Some(q) => if q.len() > 0 {
                    Some(q)
                } else {
                    None
                },
                None => None,
            }),
            r.type_color == type_color_of(row@.entity_type),
            r.entity_type@ == row@.entity_type,
            r.name@ == row@.entity_name,
            r.target@ == row@.entity_id,
    {
        let quality = match &row.quality {
            Some(q) => if q.as_str().is_empty() {
                None
            } else {
                Some(q.clone())
            },
            None => None,
        };
        DetailRow {
            quality,
            type_color: self.type_color(row.entity_type.as_str()),
            entity_type: row.entity_type.clone(),
            name: row.entity_name.clone(),
            target: row.entity_id.clone(),
        }
    }

    /// The header of a part of the details.
    pub fn render_section_header(&self, label: &str, count: usize) -> (r: String)
        ensures
            r@ == section_header_of(label@, count as nat),
    {
        label.to_owned().concat(" (").concat(text::decimal_text(count).as_str()).concat(")")
    }

    /// A part of the details, where it has rows.
    fn section(&self, label: &str, rows: &Vec<BelongingRow>) -> (r: Option<Section>)
        ensures
            shows_section(r, label@, belongings_view(rows@)),
    {
        if rows.len() == 0 {
            return None;
        }
        let copy = rows.clone();
        proof {
            assert(belongings_view(copy@) == belongings_view(rows@));
        }
        Some(
            Section {
                header: self.render_section_header(label, rows.len()),
                rows: copy,
            },
        )
    }

    /// The details of the selected row.
    fn details(&self) -> (r: Details)
        ensures
            shows_details(r, self@),
    {
        let note = if self.belongs_to.len() == 0 && self.contains.len() == 0 {
            Some("no connections")
        } else {
            None
        };
        Details {
            belongs_to: self.section("belongs to", &self.belongs_to),
            contains: self.section("contains", &self.contains),
            note,
        }
    }

    /// What the panel shows.
    pub fn render(&self) -> (r: PanelScreen)
        requires
            self@.selected_idx matches Some(i) ==> 0 <= i < self@.entities.len(),
        ensures
            r.stats@ == text::decimal(self@.total_entities) + " entities · "@ + text::decimal(
                self@.total_belongings,
            ) + " edges"@,
            r.home@ == "home"@,
            match r.selected {
                Some(h) => {
                    &&& self@.selected_idx matches Some(i) && {
                        &&& 0 <= i < self@.entities.len()
                        &&& h.type_color == type_color_of(self@.entities[i].entity_type)
                        &&& h.entity_type@ == self@.entities[i].entity_type
                        &&& h.name@ == self@.entities[i].name
                    }
                },
                None => self@.selected_idx is None,
            },
            match r.body {
                Body::List { rows, details } => {
                    &&& self@.db_path is Some
                    &&& rows == self@.entities.len()
                    &&& match details {
                        Some(d) => self@.selected_idx is Some && shows_details(d, self@),
                        None => self@.selected_idx is None,
                    }
                },
                Body::NoDatabase(note) => {
                    &&& self@.db_path is None
                    &&& note@ == "No entities.db found in worktree"@
                },
            },
    {
        let stats = text::decimal_text(self.total_entities).concat(" entities · ").concat(
            text::decimal_text(self.total_belongings).as_str(),
        ).concat(" edges");
        let selected = match self.selected_idx {
            Some(i) => {
                let entity = &self.entities[i];
                Some(
                    SelectedHeader {
                        type_color: self.type_color(entity.entity_type.as_str()),
                        entity_type: entity.entity_type.clone(),
                        name: entity.name.clone(),
                    },
                )
            },
            None => None,
        };
        let body = if self.db_path.is_some() {
            let details = if self.selected_idx.is_some() {
                Some(self.details())
            } else {
                None
            };
            Body::List { rows: self.entities.len(), details }
        } else {
            Body::NoDatabase("No entities.db found in worktree")
        };
        PanelScreen { stats, home: "home", selected, body }
    }

    /// The panel's name in settings.
    pub fn persistent_name() -> (r: &'static str)
        ensures
            r@ == "Ontology Panel"@,
    {
        "Ontology Panel"
    }

    /// The panel's key in the store of open panels.
    pub fn panel_key() -> (r: &'static str)
        ensures
            r@ == "OntologyPanel"@,
    {
        "OntologyPanel"
    }

    /// The side at which the panel docks.
    pub fn position(&self) -> (r: DockPosition)
        ensures
            r == DockPosition::Right,
    {
        panel::position()
    }

    /// Whether the panel may dock at a side.
    pub fn position_is_valid(&self, position: DockPosition) -> (r: bool)
        ensures
            r == (position == DockPosition::Left || position == DockPosition::Right),
    {
        panel::position_is_valid(position)
    }

    /// The panel's width in pixels before the user has set one.
    pub fn default_size(&self) -> (r: u32)
        ensures
            r == 360,
    {
        360
    }

    /// The panel's icon.
    pub fn icon(&self) -> (r: Icon)
        ensures
            r == Icon::DatabaseZap,
    {
        Icon::DatabaseZap
    }

    /// What the icon says when pointed at.
    pub fn icon_tooltip(&self) -> (r: &'static str)
        ensures
            r@ == "Ontology Panel"@,
    {
        "Ontology Panel"
    }

    /// The panel's rank among those that want to be shown.
    pub fn activation_priority(&self) -> (r: u32)
        ensures
            r == 12,
    {
        12
    }
}

/// Whether a database can be opened.
fn has_text(path: &Option<DbPath>) -> (r: bool)
    ensures
        r == opens(path_view(*path)),
{
    match path {
        Some(p) => p.text.is_some(),
        None => false,
    }
}

proof fn lemma_position_of_prefix(entities: Seq<EntityView>, n: int, id: Seq<char>)
    requires
        0 <= n <= entities.len(),
        position_of(entities.take(n), id) is Some,
    ensures
        position_of(entities, id) == position_of(entities.take(n), id),
    decreases entities.len(),
{
    if n == entities.len() {
        assert(entities.take(n) == entities);
    } else {
        assert(entities.drop_last().take(n) == entities.take(n));
        lemma_position_of_prefix(entities.drop_last(), n, id);
    }
}

/// A type can be read off the identifier of its row.
pub proof fn law_type_row_names_its_type(entity_type: Seq<char>, count: Seq<char>)
    ensures
        type_in_id(type_row(entity_type, count).id) == Some(entity_type),
{
    let id = TYPE_PREFIX@ + entity_type;
    assert(TYPE_PREFIX@.is_prefix_of(id)) by {
        assert(id.subrange(0, TYPE_PREFIX@.len() as int) == TYPE_PREFIX@);
    }
    assert(id.skip(TYPE_PREFIX@.len() as int) == entity_type);
}

/// Each row of the list of types leads to the entities of its type.
pub proof fn law_type_list_leads_to_entities(p: PanelView, rows: Vec<(String, String)>, i: int)
    requires
        opens(p.db_path),
        0 <= i < rows@.len(),
    ensures
        navigate_queries_of(p, type_rows(Some(rows))[i].id) == seq![
            QueryView::EntitiesByType(rows@[i].0@),
        ],
{
    law_type_row_names_its_type(rows@[i].0@, rows@[i].1@);
}

/// The selected row is a row of the main list, and the first one for the current place in the
/// history.
pub proof fn law_selection_is_in_the_list(p: PanelView)
    requires
        panel_wf(p),
        opens(p.db_path),
        p.selected_idx is Some,
    ensures
        ({
            let i = p.selected_idx.unwrap();
            let id = p.history[p.history_pos.unwrap()];
            &&& 0 <= i < p.entities.len()
            &&& p.entities[i].id == id
            &&& forall|j: int| 0 <= j < i ==> (#[trigger] p.entities[j]).id != id
        }),
{
    let id = p.history[p.history_pos.unwrap()];
    lemma_position_of(p.entities, id);
    lemma_position_is_first(p.entities, id);
}

proof fn lemma_position_is_first(entities: Seq<EntityView>, id: Seq<char>)
    ensures
        match position_of(entities, id) {
            Some(i) => forall|j: int| 0 <= j < i ==> (#[trigger] entities[j]).id != id,
            None => forall|j: int| 0 <= j < entities.len() ==> (#[trigger] entities[j]).id != id,
        },
    decreases entities.len(),
{
    if entities.len() > 0 {
        let front = entities.drop_last();
        lemma_position_of(front, id);
        lemma_position_is_first(front, id);
        assert forall|j: int| 0 <= j < front.len() implies front[j] == #[trigger] entities[j] by {}
    }
}

/// Going back from an entity leads to the place from which it was gone to: the same place in the
/// history, the same row selected, and the details of the same entity asked for.
pub proof fn law_back_undoes_navigate(p: PanelView, id: Seq<char>, a: Answers, b: Answers)
    requires
        panel_wf(p),
        opens(p.db_path),
        p.history_pos is Some,
        type_in_id(id) is None,
    ensures
        ({
            let k = p.history_pos.unwrap();
            let here = p.history[k];
            let there = after_navigate(p, id, a);
            let back = after_back(there, b);
            &&& there.history == p.history.take(k + 1).push(id)
            &&& there.history_pos == Some(k + 1)
            &&& back_queries_of(there) == seq![QueryView::BelongsTo(here), QueryView::Contains(here)]
            &&& back.history_pos == p.history_pos
            &&& back.history[k] == here
            &&& back.entities == p.entities
            &&& back.selected_idx == position_of(p.entities, here)
            &&& back.belongs_to == belongs_to_rows(b.belongs_to)
            &&& back.contains == contains_rows(b.contains)
        }),
{
}

/// Going to an entity makes it the last place in the history: the places that were gone back from
/// are forgotten, and those before the current one stay.
pub proof fn law_navigate_ends_the_history(p: PanelView, id: Seq<char>, a: Answers)
    requires
        panel_wf(p),
        opens(p.db_path),
        type_in_id(id) is None,
    ensures
        ({
            let q = after_navigate(p, id, a);
            let kept = match p.history_pos {
                Some(k) => k + 1,
                None => 0,
            };
            &&& q.history.len() == kept + 1
            &&& q.history.last() == id
            &&& q.history_pos == Some(q.history.len() - 1)
            &&& forall|j: int| 0 <= j < kept ==> #[trigger] q.history[j] == p.history[j]
        }),
{
}

/// At the first place in the history, and before any, going back does nothing and asks nothing.
pub proof fn law_nothing_before_the_start(p: PanelView, a: Answers)
    requires
        p.history_pos is None || p.history_pos == Some(0int),
    ensures
        after_back(p, a) == p,
        back_queries_of(p) == Seq::<QueryView>::empty(),
{
}

/// Without a database that can be opened, the panel asks nothing, and nothing of it changes but its
/// place in the history, by going back.
pub proof fn law_no_database_only_the_place_changes(p: PanelView, id: Seq<char>, a: Answers)
    requires
        !opens(p.db_path),
    ensures
        navigate_queries_of(p, id) == Seq::<QueryView>::empty(),
        back_queries_of(p) == Seq::<QueryView>::empty(),
        after_navigate(p, id, a) == p,
        after_back(p, a) == (PanelView {
            history_pos: match p.history_pos {
                Some(k) => if k > 0 {
                    Some(k - 1)
                } else {
                    Some(k)
                },
                None => None,
            },
            ..p
        }),
        after_home(p, a) == p,
        after_search(p, a) == p,
{
}

/// Lists of types and of what a search found leave the history alone, and so does the list of a
/// type's entities.
pub proof fn law_lists_keep_the_history(p: PanelView, id: Seq<char>, a: Answers)
    requires
        type_in_id(id) is Some,
    ensures
        after_home(p, a).history == p.history,
        after_home(p, a).history_pos == p.history_pos,
        after_search(p, a).history == p.history,
        after_search(p, a).history_pos == p.history_pos,
        after_navigate(p, id, a).history == p.history,
        after_navigate(p, id, a).history_pos == p.history_pos,
{
}

/// Only the answers that were asked for count.
pub proof fn law_only_what_was_asked_counts(p: PanelView, id: Seq<char>, a: Answers, b: Answers)
    requires
        type_in_id(id) is Some ==> entity_rows(a.entities) == entity_rows(b.entities),
        type_in_id(id) is None ==> belongs_to_rows(a.belongs_to) == belongs_to_rows(b.belongs_to)
            && contains_rows(a.contains) == contains_rows(b.contains),
    ensures
        after_navigate(p, id, a) == after_navigate(p, id, b),
{
}

/// No step changes which database is shown or what was counted in it.
pub proof fn law_database_is_kept(p: PanelView, id: Seq<char>, a: Answers)
    ensures
        forall|q: PanelView|
            (q == after_navigate(p, id, a) || q == after_back(p, a) || q == after_home(p, a) || q
                == after_search(p, a)) ==> (#[trigger] q.db_path) == p.db_path && q.total_entities
                == p.total_entities && q.total_belongings == p.total_belongings,
{
}

/// Whether `shown` is the optional string `s`.
pub open spec fn is_quality(shown: Option<Seq<char>>, s: Option<String>) -> bool {
    match s {
        Some(q) => shown == Some(q@),
        None => shown is None,
    }
}

/// Whether `part` is what follows the last colon of `id`, or all of `id` where it has none.
pub open spec fn is_last_part(part: Seq<char>, id: Seq<char>) -> bool {
    let start = id.len() - part.len();
    &&& start >= 0
    &&& id.skip(start) == part
    &&& forall|i: int| 0 <= i < part.len() ==> #[trigger] part[i] != ':'
    &&& start > 0 ==> id[start - 1] == ':'
}

/// Whether `list` has one row for each row of the answer, in order, with its identifier, name and
/// type.
pub open spec fn lists_entities(
    list: Seq<EntityView>,
    rows: Option<Vec<(String, String, String)>>,
) -> bool {
    match rows {
        Some(v) => {
            &&& list.len() == v@.len()
            &&& forall|i: int|
                0 <= i < v@.len() ==> (#[trigger] list[i]).id == v@[i].0@ && list[i].name
                    == v@[i].1@ && list[i].entity_type == v@[i].2@
        },
        None => list.len() == 0,
    }
}

/// Whether `list` has one row for each type of the answer, in order, with its name and count, that
/// can be told from the entities by its identifier.
pub open spec fn lists_types(list: Seq<EntityView>, rows: Option<Vec<(String, String)>>) -> bool {
    match rows {
        Some(v) => {
            &&& list.len() == v@.len()
            &&& forall|i: int|
                0 <= i < v@.len() ==> (#[trigger] list[i]).id == "__type__:"@ + v@[i].0@
                    && list[i].name == v@[i].0@ + " ("@ + v@[i].1@ + ")"@ && list[i].entity_type
                    == v@[i].0@
        },
        None => list.len() == 0,
    }
}

/// Whether `list` has one row for each thing of the answer that an entity belongs to, in order,
/// with its identifier, the last part of that as its name, its type and the quality.
pub open spec fn lists_owners(
    list: Seq<BelongingView>,
    rows: Option<Vec<(String, String, Option<String>)>>,
) -> bool {
    match rows {
        Some(v) => {
            &&& list.len() == v@.len()
            &&& forall|i: int|
                0 <= i < v@.len() ==> (#[trigger] list[i]).entity_id == v@[i].0@ && is_last_part(
                    list[i].entity_name,
                    v@[i].0@,
                ) && list[i].entity_type == v@[i].1@ && is_quality(list[i].quality, v@[i].2)
        },
        None => list.len() == 0,
    }
}

/// Whether `list` has one row for each entity of the answer that another contains, in order, with
/// its identifier, name, type and quality.
pub open spec fn lists_parts(
    list: Seq<BelongingView>,
    rows: Option<Vec<(String, String, String, Option<String>)>>,
) -> bool {
    match rows {
        Some(v) => {
            &&& list.len() == v@.len()
            &&& forall|i: int|
                0 <= i < v@.len() ==> (#[trigger] list[i]).entity_id == v@[i].0@
                    && list[i].entity_name == v@[i].1@ && list[i].entity_type == v@[i].2@
                    && is_quality(list[i].quality, v@[i].3)
        },
        None => list.len() == 0,
    }
}

proof fn lemma_after_last_colon(id: Seq<char>)
    ensures
        is_last_part(text::after_last_colon(id), id),
{
    lemma_last_colon(id);
    let part = text::after_last_colon(id);
    let start = text::last_colon(id) + 1;
    assert(part.len() == id.len() - start);
    assert forall|i: int| 0 <= i < part.len() implies #[trigger] part[i] != ':' by {
        assert(id[start + i] != ':');
    }
}

proof fn lemma_last_colon(s: Seq<char>)
    ensures
        -1 <= text::last_colon(s) < s.len(),
        text::last_colon(s) >= 0 ==> s[text::last_colon(s)] == ':',
        forall|i: int| text::last_colon(s) < i < s.len() ==> #[trigger] s[i] != ':',
    decreases s.len(),
{
    if s.len() > 0 && s.last() != ':' {
        let front = s.drop_last();
        lemma_last_colon(front);
        assert forall|i: int| text::last_colon(s) < i < s.len() implies #[trigger] s[i] != ':' by {
            if i < s.len() - 1 {
                assert(front[i] != ':');
            }
        }
    }
}

/// The entities of an answer are listed one for one.
pub proof fn law_entities_are_listed(rows: Option<Vec<(String, String, String)>>)
    ensures
        lists_entities(entity_rows(rows), rows),
{
}

/// The types of an answer are listed one for one.
pub proof fn law_types_are_listed(rows: Option<Vec<(String, String)>>)
    ensures
        lists_types(type_rows(rows), rows),
{
}

/// What an entity belongs to is listed one for one.
pub proof fn law_owners_are_listed(rows: Option<Vec<(String, String, Option<String>)>>)
    ensures
        lists_owners(belongs_to_rows(rows), rows),
{
    if let Some(v) = rows {
        let list = belongs_to_rows(rows);
        assert forall|i: int| 0 <= i < v@.len() implies (#[trigger] list[i]).entity_id == v@[i].0@
            && is_last_part(list[i].entity_name, v@[i].0@) && list[i].entity_type == v@[i].1@
            && is_quality(list[i].quality, v@[i].2) by {
            lemma_after_last_colon(v@[i].0@);
        }
    }
}

/// What an entity contains is listed one for one, each with the quality that it has, or none.
pub proof fn law_parts_are_listed(rows: Option<Vec<(String, String, String, Option<String>)>>)
    ensures
        lists_parts(contains_rows(rows), rows),
{
}

/// Whether there is a database, at a path that can be written out.
pub open spec fn has_database(path: Option<Option<Seq<char>>>) -> bool {
    path is Some && path.unwrap() is Some
}

/// A database opens if and only if there is one at a path that can be written out.
pub proof fn law_opens(path: Option<Option<Seq<char>>>)
    ensures
        opens(path) == has_database(path),
{
}

/// A search has to have two bytes.
pub proof fn law_too_short(query: Seq<char>)
    ensures
        too_short(query) <==> vstd::utf8::encode_utf8(query).len() <= 1,
{
}

/// Whether `sel` is the first row for `id` in `list`, or none where there is none.
pub open spec fn selects_first(
    sel: Option<int>,
    list: Seq<EntityView>,
    id: Seq<char>,
) -> bool {
    match sel {
        Some(i) => {
            &&& 0 <= i < list.len()
            &&& list[i].id == id
            &&& forall|j: int| 0 <= j < i ==> (#[trigger] list[j]).id != id
        },
        None => forall|j: int| 0 <= j < list.len() ==> (#[trigger] list[j]).id != id,
    }
}

/// The row that is looked for is the first one with the identifier.
pub proof fn law_first_row_is_found(list: Seq<EntityView>, id: Seq<char>)
    ensures
        selects_first(position_of(list, id), list, id),
{
    lemma_position_of(list, id);
    lemma_position_is_first(list, id);
}

/// Whether `p` and `q` show the same database and counts.
pub open spec fn same_database(p: PanelView, q: PanelView) -> bool {
    &&& q.db_path == p.db_path
    &&& q.total_entities == p.total_entities
    &&& q.total_belongings == p.total_belongings
}

/// Whether `p` and `q` have the same history and place in it.
pub open spec fn same_history(p: PanelView, q: PanelView) -> bool {
    q.history == p.history && q.history_pos == p.history_pos
}

/// Whether nothing is selected in `q` and no details are there.
pub open spec fn shows_no_details(q: PanelView) -> bool {
    q.selected_idx is None && q.belongs_to.len() == 0 && q.contains.len() == 0
}

/// A search lists what the database found, whatever was listed before, and keeps the query and the
/// history. Without a database, or with a query of less than two bytes, it changes nothing.
pub proof fn law_search_lists_what_was_found(p: PanelView, a: Answers)
    ensures
        ({
            let q = after_search(p, a);
            if has_database(p.db_path) && vstd::utf8::encode_utf8(p.search_query).len() >= 2 {
                &&& lists_entities(q.entities, a.entities)
                &&& q.view_mode == ViewMode::Search
                &&& shows_no_details(q)
                &&& q.search_query == p.search_query
                &&& same_history(p, q)
                &&& same_database(p, q)
            } else {
                q == p
            }
        }),
{
    law_entities_are_listed(a.entities);
}

/// Going home lists the types that the database has, and clears the query. Without a database it
/// changes nothing.
pub proof fn law_home_lists_the_types(p: PanelView, a: Answers)
    ensures
        ({
            let q = after_home(p, a);
            if has_database(p.db_path) {
                &&& lists_types(q.entities, a.types)
                &&& q.view_mode == ViewMode::TypeList
                &&& shows_no_details(q)
                &&& q.search_query.len() == 0
                &&& same_history(p, q)
                &&& same_database(p, q)
            } else {
                q == p
            }
        }),
{
    law_types_are_listed(a.types);
    reveal_strlit("");
}

/// Going to the row of a type asks for its entities and lists those that the database has. It is
/// no place in the history.
pub proof fn law_type_row_lists_its_entities(p: PanelView, entity_type: Seq<char>, a: Answers)
    requires
        has_database(p.db_path),
    ensures
        ({
            let id = "__type__:"@ + entity_type;
            let q = after_navigate(p, id, a);
            &&& navigate_queries_of(p, id) == seq![QueryView::EntitiesByType(entity_type)]
            &&& lists_entities(q.entities, a.entities)
            &&& q.view_mode == ViewMode::TypeList
            &&& shows_no_details(q)
            &&& q.search_query == p.search_query
            &&& same_history(p, q)
            &&& same_database(p, q)
        }),
{
    law_entities_are_listed(a.entities);
    text::law_without_prefix("__type__:"@ + entity_type, "__type__:"@, entity_type);
}

/// Going to an entity asks what it belongs to and what it contains, and shows both. Its row is
/// selected where the list has one, and the entity becomes the last place in the history.
pub proof fn law_entity_is_shown(p: PanelView, id: Seq<char>, a: Answers)
    requires
        has_database(p.db_path),
        forall|t: Seq<char>| id != #[trigger] ("__type__:"@ + t),
        p.history_pos matches Some(k) ==> 0 <= k < p.history.len(),
    ensures
        ({
            let q = after_navigate(p, id, a);
            &&& navigate_queries_of(p, id) == seq![QueryView::BelongsTo(id), QueryView::Contains(id)]
            &&& lists_owners(q.belongs_to, a.belongs_to)
            &&& lists_parts(q.contains, a.contains)
            &&& selects_first(q.selected_idx, p.entities, id)
            &&& q.history == (match p.history_pos {
                Some(k) => p.history.subrange(0, k + 1),
                None => p.history,
            }) + seq![id]
            &&& q.history_pos == Some(q.history.len() - 1)
            &&& q.entities == p.entities
            &&& q.view_mode == p.view_mode
            &&& q.search_query == p.search_query
            &&& same_database(p, q)
        }),
{
    law_owners_are_listed(a.belongs_to);
    law_parts_are_listed(a.contains);
    law_first_row_is_found(p.entities, id);
    if let Some(t) = type_in_id(id) {
        text::law_without_prefix(id, "__type__:"@, t);
        assert(id == "__type__:"@ + t);
    }
    let q = after_navigate(p, id, a);
    assert(q.history[q.history.len() - 1] == id);
}

/// Without a database nothing is asked for a row and nothing changes.
pub proof fn law_no_database_no_way(p: PanelView, id: Seq<char>, a: Answers)
    requires
        !has_database(p.db_path),
    ensures
        navigate_queries_of(p, id).len() == 0,
        after_navigate(p, id, a) == p,
{
}

/// Going back leads to the place before the current one: it asks what that entity belongs to and
/// what it contains, shows both, and selects its row where the list has one. The history stays.
pub proof fn law_back_shows_the_place_before(p: PanelView, k: int, a: Answers)
    requires
        p.history_pos == Some(k),
        0 < k < p.history.len(),
    ensures
        ({
            let q = after_back(p, a);
            let id = p.history[k - 1];
            &&& q.history_pos == Some(k - 1)
            &&& q.history == p.history
            &&& q.entities == p.entities
            &&& q.view_mode == p.view_mode
            &&& q.search_query == p.search_query
            &&& same_database(p, q)
            &&& if has_database(p.db_path) {
                &&& back_queries_of(p) == seq![QueryView::BelongsTo(id), QueryView::Contains(id)]
                &&& lists_owners(q.belongs_to, a.belongs_to)
                &&& lists_parts(q.contains, a.contains)
                &&& selects_first(q.selected_idx, p.entities, id)
            } else {
                &&& back_queries_of(p).len() == 0
                &&& q.belongs_to == p.belongs_to
                &&& q.contains == p.contains
                &&& q.selected_idx == p.selected_idx
            }
        }),
{
    law_owners_are_listed(a.belongs_to);
    law_parts_are_listed(a.contains);
    law_first_row_is_found(p.entities, p.history[k - 1]);
}

/// A count is the number in the first row of its answer; what is no number, or none that fits,
/// counts as nothing, and so does an answer without rows.
pub proof fn law_count_is_read(v: Vec<(String, String)>)
    ensures
        v@.len() > 0 && text::count_of(v@[0].0@) is Some && text::count_of(v@[0].0@).unwrap()
            <= usize::MAX ==> count_in(Some(v)) == text::count_of(v@[0].0@).unwrap(),
        v@.len() > 0 && text::count_of(v@[0].0@) is Some && text::count_of(v@[0].0@).unwrap()
            > usize::MAX ==> count_in(Some(v)) == 0,
        v@.len() > 0 && text::count_of(v@[0].0@) is None ==> count_in(Some(v)) == 0,
        v@.len() == 0 ==> count_in(Some(v)) == 0,
        count_in(None) == 0,
{
}

/// A count that the database writes in decimal is shown as it is.
pub proof fn law_decimal_count_is_read(v: Vec<(String, String)>, n: usize)
    requires
        v@.len() > 0,
        v@[0].0@ == text::decimal(n as nat),
    ensures
        count_in(Some(v)) == n,
{
    text::law_decimal_reads_back(n as nat);
}

/// The database that is shown is the first that the worktree has, and else the fallback, where it
/// is there.
pub proof fn law_first_database_is_chosen(v: Vec<DbCandidate>, fallback: DbCandidate, i: int)
    requires
        0 <= i <= v@.len(),
        forall|j: int| 0 <= j < i ==> !(#[trigger] v@[j]).exists,
        i < v@.len() ==> v@[i].exists,
    ensures
        chosen_db(Some(v), fallback) == (if i < v@.len() {
            Some(v@[i].path)
        } else if fallback.exists {
            Some(fallback.path)
        } else {
            None
        }),
        chosen_db(None, fallback) == (if fallback.exists {
            Some(fallback.path)
        } else {
            None
        }),
{
    lemma_first_existing(v@, i);
}

proof fn lemma_first_existing(candidates: Seq<DbCandidate>, i: int)
    requires
        0 <= i <= candidates.len(),
        forall|j: int| 0 <= j < i ==> !(#[trigger] candidates[j]).exists,
        i < candidates.len() ==> candidates[i].exists,
    ensures
        first_existing(candidates) == (if i < candidates.len() {
            Some(candidates[i].path)
        } else {
            None
        }),
    decreases candidates.len(),
{
    if i > 0 {
        assert(!candidates[0].exists);
        assert forall|j: int| 0 <= j < i - 1 implies !(#[trigger] candidates.skip(1)[j]).exists by {
            assert(!candidates[j + 1].exists);
        }
        lemma_first_existing(candidates.skip(1), i - 1);
    }
}

/// A search looks for names that hold the text anywhere; the other questions are about what they
/// name, or about everything.
pub proof fn law_parameters(s: Seq<char>)
    ensures
        ({
            let pattern = QueryView::Search(s).parameter_of();
            &&& pattern is Some
            &&& pattern.unwrap().len() == s.len() + 2
            &&& pattern.unwrap()[0] == '%'
            &&& pattern.unwrap().subrange(1, s.len() as int + 1) == s
            &&& pattern.unwrap()[s.len() as int + 1] == '%'
        }),
        QueryView::EntitiesByType(s).parameter_of() == Some(s),
        QueryView::BelongsTo(s).parameter_of() == Some(s),
        QueryView::Contains(s).parameter_of() == Some(s),
        QueryView::CountEntities.parameter_of() is None,
        QueryView::CountRelations.parameter_of() is None,
        QueryView::TypeSummary.parameter_of() is None,
{
    reveal_strlit("%");
    assert(("%"@ + s + "%"@).subrange(1, s.len() as int + 1) == s);
}

/// A question is put in the same SQL whatever it is about.
pub proof fn law_sql(s: Seq<char>)
    ensures
        QueryView::CountEntities.sql_of() == COUNT_ENTITIES_SQL@,
        QueryView::CountRelations.sql_of() == COUNT_RELATIONS_SQL@,
        QueryView::TypeSummary.sql_of() == TYPE_SUMMARY_SQL@,
        QueryView::EntitiesByType(s).sql_of() == ENTITIES_BY_TYPE_SQL@,
        QueryView::Search(s).sql_of() == SEARCH_SQL@,
        QueryView::BelongsTo(s).sql_of() == BELONGS_TO_SQL@,
        QueryView::Contains(s).sql_of() == CONTAINS_SQL@,
{
}

/// Each type that is known is written in a colour of its own, and all others in the dimmest.
pub proof fn law_type_colors(t: Seq<char>)
    ensures
        type_color_of(t) == ThemeColor::Blue <==> t == "project"@,
        type_color_of(t) == ThemeColor::Green <==> t == "persona"@,
        type_color_of(t) == ThemeColor::Yellow <==> t == "foundation"@,
        type_color_of(t) == ThemeColor::Magenta <==> t == "pattern"@,
        type_color_of(t) == ThemeColor::Cyan <==> t == "person"@,
        type_color_of(t) == ThemeColor::Red <==> t == "paper"@,
        type_color_of(t) == ThemeColor::BrightGreen <==> t == "tag"@,
        type_color_of(t) == ThemeColor::BrightMagenta <==> t == "track"@,
        type_color_of(t) == ThemeColor::TextMuted <==> t == "file"@,
        type_color_of(t) == ThemeColor::TextDisabled <==> !seq![
            "project"@,
            "persona"@,
            "foundation"@,
            "pattern"@,
            "person"@,
            "paper"@,
            "tag"@,
            "track"@,
            "file"@,
        ].contains(t),
{
    reveal_strlit("project");
    reveal_strlit("persona");
    reveal_strlit("foundation");
    reveal_strlit("pattern");
    reveal_strlit("person");
    reveal_strlit("paper");
    reveal_strlit("tag");
    reveal_strlit("track");
    reveal_strlit("file");
    assert("project"@.len() == 7 && "persona"@.len() == 7 && "pattern"@.len() == 7);
    assert("foundation"@.len() == 10 && "person"@.len() == 6 && "file"@.len() == 4);
    assert("paper"@.len() == 5 && "track"@.len() == 5 && "tag"@.len() == 3);
    assert("project"@[1] != "persona"@[1]);
    assert("project"@[1] != "pattern"@[1]);
    assert("persona"@[1] != "pattern"@[1]);
    assert("paper"@[0] != "track"@[0]);
    let all = seq![
        "project"@,
        "persona"@,
        "foundation"@,
        "pattern"@,
        "person"@,
        "paper"@,
        "tag"@,
        "track"@,
        "file"@,
    ];
    assert(all[0] == "project"@ && all[1] == "persona"@ && all[2] == "foundation"@);
    assert(all[3] == "pattern"@ && all[4] == "person"@ && all[5] == "paper"@);
    assert(all[6] == "tag"@ && all[7] == "track"@ && all[8] == "file"@);
    if all.contains(t) {
        let i = choose|i: int| 0 <= i < all.len() && all[i] == t;
        assert(type_color_of(all[i]) != ThemeColor::TextDisabled);
    }
}

/// A part of the details is there if and only if it has rows: all of them in order, under its label
/// and their number.
pub proof fn law_section(s: Option<Section>, label: Seq<char>, rows: Seq<BelongingView>)
    requires
        shows_section(s, label, rows),
    ensures
        s is Some <==> rows.len() > 0,
        s matches Some(part) ==> {
            &&& part.header@ == label + " ("@ + text::decimal(rows.len()) + ")"@
            &&& part.rows@.len() == rows.len()
            &&& forall|i: int| 0 <= i < rows.len() ==> (#[trigger] part.rows@[i])@ == rows[i]
        },
{
    if let Some(part) = s {
        assert forall|i: int| 0 <= i < rows.len() implies (#[trigger] part.rows@[i])@ == rows[i] by {
            assert(belongings_view(part.rows@)[i] == part.rows@[i]@);
        }
    }
}

/// The details have a part for what the entity belongs to and one for what it contains, and a note
/// if and only if there is neither.
pub proof fn law_details(d: Details, p: PanelView)
    requires
        shows_details(d, p),
    ensures
        d.belongs_to is Some <==> p.belongs_to.len() > 0,
        d.contains is Some <==> p.contains.len() > 0,
        d.belongs_to matches Some(part) ==> {
            &&& part.header@ == "belongs to ("@ + text::decimal(p.belongs_to.len()) + ")"@
            &&& part.rows@.len() == p.belongs_to.len()
            &&& forall|i: int|
                0 <= i < p.belongs_to.len() ==> (#[trigger] part.rows@[i])@ == p.belongs_to[i]
        },
        d.contains matches Some(part) ==> {
            &&& part.header@ == "contains ("@ + text::decimal(p.contains.len()) + ")"@
            &&& part.rows@.len() == p.contains.len()
            &&& forall|i: int|
                0 <= i < p.contains.len() ==> (#[trigger] part.rows@[i])@ == p.contains[i]
        },
        d.note is Some <==> p.belongs_to.len() == 0 && p.contains.len() == 0,
        d.note matches Some(note) ==> note@ == "no connections"@,
{
    law_section(d.belongs_to, "belongs to"@, p.belongs_to);
    law_section(d.contains, "contains"@, p.contains);
    reveal_strlit(" (");
    reveal_strlit("belongs to");
    reveal_strlit("belongs to (");
    reveal_strlit("contains");
    reveal_strlit("contains (");
    assert("belongs to"@ + " ("@ == "belongs to ("@);
    assert("contains"@ + " ("@ == "contains ("@);
}

/// The header of a part is its label and the number in brackets.
pub proof fn law_section_header(label: Seq<char>, count: nat)
    ensures
        section_header_of(label, count) == label + seq![' ', '('] + text::decimal(count) + seq![')'],
{
    reveal_strlit(" (");
    reveal_strlit(")");
    assert(" ("@ == seq![' ', '(']);
    assert(")"@ == seq![')']);
}

/// Rows, paths and questions are seen as what they hold.
pub proof fn law_row_views(
    e: OntologyEntity,
    b: BelongingRow,
    path: DbPath,
    index: usize,
    s: String,
)
    ensures
        e@ == (EntityView { id: e.id@, name: e.name@, entity_type: e.entity_type@ }),
        b@.entity_id == b.entity_id@,
        b@.entity_name == b.entity_name@,
        b@.entity_type == b.entity_type@,
        is_quality(b@.quality, b.quality),
        is_quality(path@, path.text),
        path_view(Some(path)) == Some(path@),
        path_view(None) is None,
        index_view(Some(index)) == Some(index as int),
        index_view(None) is None,
        Query::CountEntities@ == QueryView::CountEntities,
        Query::CountRelations@ == QueryView::CountRelations,
        Query::TypeSummary@ == QueryView::TypeSummary,
        Query::EntitiesByType(s)@ == QueryView::EntitiesByType(s@),
        Query::Search(s)@ == QueryView::Search(s@),
        Query::BelongsTo(s)@ == QueryView::BelongsTo(s@),
        Query::Contains(s)@ == QueryView::Contains(s@),
{
}

/// Lists are seen as the views of their items.
pub proof fn law_list_views(
    entities: Seq<OntologyEntity>,
    rows: Seq<BelongingRow>,
    queries: Seq<Query>,
    history: Seq<String>,
    i: int,
)
    ensures
        entities_view(entities).len() == entities.len(),
        belongings_view(rows).len() == rows.len(),
        queries_view(queries).len() == queries.len(),
        history_view(history).len() == history.len(),
        0 <= i < entities.len() ==> entities_view(entities)[i] == entities[i]@,
        0 <= i < rows.len() ==> belongings_view(rows)[i] == rows[i]@,
        0 <= i < queries.len() ==> queries_view(queries)[i] == queries[i]@,
        0 <= i < history.len() ==> history_view(history)[i] == history[i]@,
{
}

/// The panel is seen as what its fields hold.
pub proof fn law_panel_view(p: OntologyPanel)
    ensures
        p@.db_path == path_view(p.db_path),
        p@.entities == entities_view(p.entities@),
        p@.selected_idx == index_view(p.selected_idx),
        p@.belongs_to == belongings_view(p.belongs_to@),
        p@.contains == belongings_view(p.contains@),
        p@.history == history_view(p.history@),
        p@.history_pos == index_view(p.history_pos),
        p@.search_query == p.search_query@,
        p@.view_mode == p.view_mode,
        p@.total_entities == p.total_entities,
        p@.total_belongings == p.total_belongings,
{
}

} // verus!
