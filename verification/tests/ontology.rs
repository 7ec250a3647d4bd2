use haak::ontology::{
    choose_db, db_candidates, open_db, query_belongs_to, query_contains, query_entities_by_type,
    query_search, query_stats, query_type_summary, Answers, BelongingRow, Body, DbCandidate,
    DbPath, OntologyPanel, Query, ViewMode, FALLBACK_DB,
};
use haak::panel::{DockPosition, Icon, ThemeColor};

fn s(t: &str) -> String {
    t.to_string()
}

fn path(t: &str) -> DbPath {
    DbPath { text: Some(s(t)) }
}

fn nothing() -> Answers {
    Answers {
        entity_count: None,
        relation_count: None,
        types: None,
        entities: None,
        belongs_to: None,
        contains: None,
    }
}

fn answers() -> Answers {
    Answers {
        entity_count: Some(vec![(s("3"), s(""))]),
        relation_count: Some(vec![(s("2"), s(""))]),
        types: Some(vec![(s("person"), s("2")), (s("tag"), s("1"))]),
        entities: Some(vec![
            (s("person:ann"), s("Ann"), s("person")),
            (s("person:bob"), s("Bob"), s("person")),
        ]),
        belongs_to: Some(vec![(s("tag:x:friend"), s("tag"), Some(s("is")))]),
        contains: Some(vec![(s("file:1"), s("One"), s("file"), None)]),
    }
}

fn at_people() -> OntologyPanel {
    let mut p = OntologyPanel::new(Some(path("/db")), &answers());
    p.select_entity(0, &answers());
    p
}

fn asked(queries: Vec<Query>) -> Vec<(String, Option<String>)> {
    queries.iter().map(|q| (q.sql().to_string(), q.parameter())).collect()
}

#[test]
fn stats_come_from_the_first_rows() {
    let three = Some(vec![(s("3"), s("")), (s("9"), s(""))]);
    assert_eq!(query_stats(&three, &None), (3, 0));
    assert_eq!(query_stats(&Some(vec![]), &Some(vec![(s("x"), s(""))])), (0, 0));
    assert_eq!(query_stats(&Some(vec![(s("99999999999999999999"), s(""))]), &three), (0, 3));
}

#[test]
fn type_summary_rows() {
    let rows = query_type_summary(&answers().types);
    assert_eq!(rows.len(), 2);
    assert_eq!(rows[0].id, "__type__:person");
    assert_eq!(rows[0].name, "person (2)");
    assert_eq!(rows[0].entity_type, "person");
    assert_eq!(rows[1].name, "tag (1)");
    assert!(query_type_summary(&None).is_empty());
}

#[test]
fn entity_rows() {
    for rows in [query_entities_by_type(&answers().entities), query_search(&answers().entities)] {
        assert_eq!(rows.len(), 2);
        assert_eq!(rows[1].id, "person:bob");
        assert_eq!(rows[1].name, "Bob");
        assert_eq!(rows[1].entity_type, "person");
    }
    assert!(query_entities_by_type(&None).is_empty());
    assert!(query_search(&None).is_empty());
}

#[test]
fn belonging_rows() {
    let rows = query_belongs_to(&answers().belongs_to);
    assert_eq!(rows.len(), 1);
    assert_eq!(rows[0].entity_id, "tag:x:friend");
    assert_eq!(rows[0].entity_name, "friend");
    assert_eq!(rows[0].entity_type, "tag");
    assert_eq!(rows[0].quality.as_deref(), Some("is"));
    let rows = query_contains(&answers().contains);
    assert_eq!(rows.len(), 1);
    assert_eq!(rows[0].entity_id, "file:1");
    assert_eq!(rows[0].entity_name, "One");
    assert_eq!(rows[0].entity_type, "file");
    assert_eq!(rows[0].quality, None);
    assert!(query_belongs_to(&None).is_empty());
    assert!(query_contains(&None).is_empty());
}

#[test]
fn queries_in_sql() {
    let q = Query::Search(s("an"));
    assert_eq!(q.parameter().as_deref(), Some("%an%"));
    assert_eq!(
        q.sql(),
        "SELECT id, COALESCE(name, id), type_ref FROM entities WHERE name LIKE ? ORDER BY type_ref, name LIMIT 200"
    );
    let q = Query::EntitiesByType(s("tag"));
    assert_eq!(q.parameter().as_deref(), Some("tag"));
    assert_eq!(
        q.sql(),
        "SELECT id, COALESCE(name, id), type_ref FROM entities WHERE type_ref = ? ORDER BY name LIMIT 500"
    );
    assert_eq!(
        Query::TypeSummary.sql(),
        "SELECT type_ref, CAST(COUNT(*) AS TEXT) as c FROM entities GROUP BY type_ref ORDER BY COUNT(*) DESC"
    );
    assert_eq!(Query::CountEntities.sql(), "SELECT CAST(COUNT(*) AS TEXT), '' FROM entities");
    assert_eq!(Query::CountRelations.sql(), "SELECT CAST(COUNT(*) AS TEXT), '' FROM relations");
    assert_eq!(Query::CountRelations.parameter(), None);
    let words = |q: &Query| q.sql().split_whitespace().collect::<Vec<_>>().join(" ");
    assert_eq!(
        words(&Query::BelongsTo(s("x"))),
        "SELECT r.target_id, COALESCE(e.type_ref, '?'), r.quality_ref FROM relations r LEFT JOIN entities e ON e.id = r.target_id WHERE r.entity_id = ? ORDER BY r.quality_ref, r.target_id LIMIT 200"
    );
    assert_eq!(
        words(&Query::Contains(s("x"))),
        "SELECT e.id, COALESCE(e.name, e.id), e.type_ref, r.quality_ref FROM relations r JOIN entities e ON e.id = r.entity_id WHERE r.target_id = ? ORDER BY e.type_ref, e.name LIMIT 200"
    );
}

#[test]
fn the_first_database_is_chosen() {
    assert_eq!(db_candidates(), vec!["infra/var/haak.db", "data/entities.db"]);
    assert_eq!(FALLBACK_DB, "/Users/zach/Projects/haak/infra/var/haak.db");
    let at = |t: &str, exists: bool| DbCandidate { path: path(t), exists };
    let chosen = |w: Option<Vec<DbCandidate>>, f: bool| {
        choose_db(&w, &at("fallback", f)).and_then(|p| open_db(&p))
    };
    assert_eq!(chosen(Some(vec![at("a", true), at("b", true)]), true).as_deref(), Some("a"));
    assert_eq!(chosen(Some(vec![at("a", false), at("b", true)]), true).as_deref(), Some("b"));
    assert_eq!(chosen(Some(vec![at("a", false), at("b", false)]), true).as_deref(), Some("fallback"));
    assert_eq!(chosen(None, true).as_deref(), Some("fallback"));
    assert_eq!(chosen(None, false), None);
}

#[test]
fn panel_starts_with_the_types() {
    let queries = OntologyPanel::initial_queries(&Some(path("/db")));
    assert!(matches!(
        queries[..],
        [Query::CountEntities, Query::CountRelations, Query::TypeSummary]
    ));
    let p = OntologyPanel::new(Some(path("/db")), &answers());
    assert_eq!((p.total_entities, p.total_belongings), (3, 2));
    assert_eq!(p.entities.len(), 2);
    assert_eq!(p.database().as_deref(), Some("/db"));
    assert!(p.selected_idx.is_none() && p.history_pos.is_none());
    assert_eq!(p.view_mode, ViewMode::TypeList);
}

#[test]
fn panel_without_a_database_does_nothing() {
    for db in [None, Some(DbPath { text: None })] {
        assert!(OntologyPanel::initial_queries(&db).is_empty());
        let mut p = OntologyPanel::new(db, &answers());
        assert_eq!((p.total_entities, p.total_belongings), (0, 0));
        assert!(p.entities.is_empty());
        assert!(p.database().is_none());
        p.search_query = s("long enough");
        assert!(p.navigate_queries("x").is_empty());
        assert!(p.back_queries().is_empty());
        assert!(p.type_list_queries().is_empty());
        assert!(p.search_queries().is_empty());
        assert!(!p.navigate_to("x", &answers()));
        assert!(!p.navigate_to("__type__:tag", &answers()));
        assert!(!p.select_belonging("x", &answers()));
        assert!(!p.show_type_list(&answers()));
        assert!(!p.do_search(&answers()));
        assert!(!p.go_back(&answers()));
        assert!(p.entities.is_empty() && p.history.is_empty());
        assert_eq!(p.search_query, "long enough");
    }
}

#[test]
fn a_type_row_lists_its_entities() {
    let mut p = OntologyPanel::new(Some(path("/db")), &answers());
    assert!(matches!(
        &p.select_queries(0)[..],
        [Query::EntitiesByType(t)] if t == "person"
    ));
    assert!(p.select_entity(0, &answers()));
    assert_eq!(p.entities[0].id, "person:ann");
    assert!(p.history.is_empty());
    assert!(p.selected_idx.is_none());
    assert_eq!(p.view_mode, ViewMode::TypeList);
}

#[test]
fn an_entity_shows_its_details() {
    let mut p = at_people();
    let asked = asked(p.select_queries(1));
    assert_eq!(asked.len(), 2);
    assert_eq!(asked[0].1.as_deref(), Some("person:bob"));
    assert_eq!(asked[1].1.as_deref(), Some("person:bob"));
    p.select_entity(1, &answers());
    assert_eq!(p.selected_idx, Some(1));
    assert_eq!(p.history, vec![s("person:bob")]);
    assert_eq!(p.history_pos, Some(0));
    assert_eq!(p.belongs_to.len(), 1);
    assert_eq!(p.contains.len(), 1);
}

#[test]
fn history_goes_back_and_forgets() {
    let mut p = at_people();
    p.navigate_to("person:ann", &answers());
    p.select_belonging("tag:x:friend", &nothing());
    assert_eq!(p.selected_idx, None);
    assert!(p.belongs_to.is_empty());
    p.navigate_to("person:bob", &answers());
    assert_eq!(p.history_pos, Some(2));
    assert!(matches!(
        &p.back_queries()[..],
        [Query::BelongsTo(a), Query::Contains(b)] if a == "tag:x:friend" && b == "tag:x:friend"
    ));
    assert!(p.go_back(&nothing()));
    assert_eq!(p.history_pos, Some(1));
    assert_eq!(p.selected_idx, None);
    p.go_back(&answers());
    assert_eq!(p.history_pos, Some(0));
    assert_eq!(p.selected_idx, Some(0));
    assert_eq!(p.contains.len(), 1);
    assert!(p.back_queries().is_empty());
    assert!(!p.go_back(&nothing()));
    assert_eq!(p.history_pos, Some(0));
    assert_eq!(p.contains.len(), 1);
    assert_eq!(p.history.len(), 3);
    assert!(p.navigate_to("file:1", &answers()));
    assert_eq!(p.history, vec![s("person:ann"), s("file:1")]);
    assert_eq!(p.history_pos, Some(1));
}

#[test]
fn going_back_without_a_database_moves_the_place_alone() {
    for db in [None, Some(DbPath { text: None })] {
        let mut p = at_people();
        p.navigate_to("person:ann", &answers());
        p.navigate_to("person:bob", &answers());
        p.db_path = db;
        assert!(p.back_queries().is_empty());
        assert!(!p.go_back(&nothing()));
        assert_eq!(p.history_pos, Some(0));
        assert_eq!(p.history, vec![s("person:ann"), s("person:bob")]);
        assert_eq!(p.selected_idx, Some(1));
        assert_eq!(p.entities.len(), 2);
        assert_eq!(p.belongs_to.len(), 1);
        assert_eq!(p.contains.len(), 1);
        assert!(!p.go_back(&nothing()));
        assert_eq!(p.history_pos, Some(0));
    }
}

#[test]
fn home_and_search() {
    let mut p = at_people();
    p.navigate_to("person:ann", &answers());
    p.search_query = s("é");
    assert_eq!(p.search_queries().len(), 1);
    p.search_query = s("a");
    assert!(p.search_queries().is_empty());
    assert!(!p.do_search(&nothing()));
    assert_eq!(p.entities.len(), 2);
    assert_eq!(p.selected_idx, Some(0));
    p.search_query = s("an");
    assert_eq!(asked(p.search_queries())[0].1.as_deref(), Some("%an%"));
    assert!(p.do_search(&answers()));
    assert_eq!(p.view_mode, ViewMode::Search);
    assert_eq!(p.selected_idx, None);
    assert!(p.belongs_to.is_empty() && p.contains.is_empty());
    assert_eq!(p.search_query, "an");
    assert!(matches!(p.type_list_queries()[..], [Query::TypeSummary]));
    assert!(p.show_type_list(&answers()));
    assert_eq!(p.view_mode, ViewMode::TypeList);
    assert_eq!(p.entities[0].id, "__type__:person");
    assert_eq!(p.search_query, "");
    assert_eq!(p.history, vec![s("person:ann")]);
    assert_eq!(p.history_pos, Some(0));
}

#[test]
fn type_colors() {
    let p = OntologyPanel::new(None, &nothing());
    for (t, color) in [
        ("project", ThemeColor::Blue),
        ("persona", ThemeColor::Green),
        ("foundation", ThemeColor::Yellow),
        ("pattern", ThemeColor::Magenta),
        ("person", ThemeColor::Cyan),
        ("paper", ThemeColor::Red),
        ("tag", ThemeColor::BrightGreen),
        ("track", ThemeColor::BrightMagenta),
        ("file", ThemeColor::TextMuted),
        ("", ThemeColor::TextDisabled),
        ("Person", ThemeColor::TextDisabled),
    ] {
        assert_eq!(p.type_color(t), color);
    }
}

#[test]
fn rows_on_the_screen() {
    let mut p = at_people();
    p.navigate_to("person:bob", &answers());
    let row = p.render_entity_row(1);
    assert_eq!(row.background, ThemeColor::ElementSelected);
    assert_eq!(row.type_color, ThemeColor::Cyan);
    assert_eq!((row.entity_type.as_str(), row.name.as_str()), ("person", "Bob"));
    assert_eq!(p.render_entity_row(0).background, ThemeColor::Transparent);
    let row = p.render_belonging_row(&p.belongs_to[0]);
    assert_eq!(row.quality.as_deref(), Some("is"));
    assert_eq!(row.type_color, ThemeColor::BrightGreen);
    assert_eq!((row.entity_type.as_str(), row.name.as_str()), ("tag", "friend"));
    assert_eq!(row.target, "tag:x:friend");
    let bare = BelongingRow {
        entity_id: s("i"),
        entity_name: s("n"),
        entity_type: s("t"),
        quality: Some(s("")),
    };
    assert_eq!(p.render_belonging_row(&bare).quality, None);
    assert_eq!(p.render_section_header("contains", 12), "contains (12)");
}

#[test]
fn ontology_screen() {
    let mut p = at_people();
    let screen = p.render();
    assert_eq!(screen.stats, "3 entities · 2 edges");
    assert_eq!(screen.home, "home");
    assert!(screen.selected.is_none());
    assert!(matches!(screen.body, Body::List { rows: 2, details: None }));
    p.navigate_to("person:ann", &answers());
    let screen = p.render();
    let selected = screen.selected.unwrap();
    assert_eq!((selected.entity_type.as_str(), selected.name.as_str()), ("person", "Ann"));
    assert_eq!(selected.type_color, ThemeColor::Cyan);
    match screen.body {
        Body::List { rows, details: Some(d) } => {
            assert_eq!(rows, 2);
            let b = d.belongs_to.unwrap();
            assert_eq!(b.header, "belongs to (1)");
            assert_eq!(b.rows[0].entity_name, "friend");
            assert_eq!(d.contains.unwrap().header, "contains (1)");
            assert!(d.note.is_none());
        }
        _ => panic!("no details"),
    }
    p.navigate_to("person:ann", &nothing());
    match p.render().body {
        Body::List { details: Some(d), .. } => {
            assert!(d.belongs_to.is_none() && d.contains.is_none());
            assert_eq!(d.note, Some("no connections"));
        }
        _ => panic!("no details"),
    }
    let p = OntologyPanel::new(None, &nothing());
    assert!(matches!(
        p.render().body,
        Body::NoDatabase("No entities.db found in worktree")
    ));
}

#[test]
fn a_row_is_shown_as_selected_whatever_the_history() {
    let mut p = at_people();
    p.selected_idx = Some(0);
    assert!(p.history.is_empty());
    assert_eq!(p.render().selected.unwrap().name, p.entities[0].name);
}

#[test]
fn ontology_panel_facts() {
    let p = OntologyPanel::new(None, &nothing());
    assert_eq!(OntologyPanel::persistent_name(), "Ontology Panel");
    assert_eq!(OntologyPanel::panel_key(), "OntologyPanel");
    assert_eq!(p.position(), DockPosition::Right);
    assert!(p.position_is_valid(DockPosition::Left));
    assert!(!p.position_is_valid(DockPosition::Bottom));
    assert_eq!(p.default_size(), 360);
    assert_eq!(p.icon(), Icon::DatabaseZap);
    assert_eq!(p.icon_tooltip(), "Ontology Panel");
    assert_eq!(p.activation_priority(), 12);
}
