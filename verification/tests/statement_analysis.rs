use ryde::ast::Assignment;
use ryde::ast::ColumnDecl;
use ryde::ast::CountArg;
use ryde::ast::CreateTable;
use ryde::ast::AlterTable;
use ryde::ast::DeclaredType;
use ryde::ast::Delete;
use ryde::ast::Expr;
use ryde::ast::Insert;
use ryde::ast::InsertSource;
use ryde::ast::Limit;
use ryde::ast::Select;
use ryde::ast::SelectItem;
use ryde::ast::SqlStatement;
use ryde::ast::StatementDefinition;
use ryde::ast::SubqueryCondition;
use ryde::emit::emit_accessor;
use ryde::emit::AccessorShape;
use ryde::emit::HostType;
use ryde::emit::RecordDescription;
use ryde::generate::generate;
use ryde::model::BuildError;
use ryde::model::DataType;
use ryde::model::ResultOverride;
use ryde::model::ReturnShape;
use ryde::resolve::resolve_statement;
use ryde::resolve::Statement;
use ryde::schema::Schema;

fn decl(name: &str, ty: DeclaredType, not_null: bool, primary_key: bool) -> ColumnDecl {
    ColumnDecl { name: name.to_string(), declared_type: ty, not_null, primary_key }
}

fn posts_decls() -> Vec<ColumnDecl> {
    vec![
        decl("id", DeclaredType::Integer, true, true),
        decl("title", DeclaredType::Text, true, false),
        decl("test", DeclaredType::Integer, false, false),
    ]
}

fn posts_schema() -> Schema {
    let mut schema = Schema::new();
    schema.record("posts", &posts_decls());
    schema
}

fn select_posts(limit: Option<Limit>) -> SqlStatement {
    SqlStatement::Select(Box::new(Select {
        from: vec!["posts".to_string()],
        projection: vec![SelectItem::TableStar("posts".to_string())],
        selection: None,
        limit,
    }))
}

fn input_names(st: &Statement) -> Vec<String> {
    match st {
        Statement::Execute { input_columns, .. } => {
            input_columns.iter().map(|c| c.name.clone()).collect()
        }
        Statement::ScalarAggregateQuery { input_columns, .. } => {
            input_columns.iter().map(|c| c.name.clone()).collect()
        }
        Statement::Query { input_columns, .. } => {
            input_columns.iter().map(|c| c.name.clone()).collect()
        }
        _ => panic!("statement takes no input columns"),
    }
}

fn query_shape(st: &Statement) -> ReturnShape {
    match st {
        Statement::Query { return_shape, .. } => *return_shape,
        _ => panic!("not a row query"),
    }
}

#[test]
fn schema_lookup_is_order_consistent() {
    let mut schema = Schema::new();
    assert_eq!(schema.resolve("t", "id"), None);
    schema.record(
        "t",
        &vec![
            decl("id", DeclaredType::Integer, false, true),
            decl("title", DeclaredType::Text, true, false),
        ],
    );
    assert_eq!(schema.resolve("t", "id"), Some(DataType::Integer));
    assert_eq!(schema.resolve("t", "title"), Some(DataType::Text));
    assert_eq!(schema.resolve("t", "missing"), None);
    assert_eq!(schema.resolve("other", "id"), None);

    schema.record("other", &vec![decl("id", DeclaredType::Text, false, false)]);
    assert_eq!(schema.resolve("t", "id"), Some(DataType::Integer));
    assert_eq!(
        schema.resolve("other", "id"),
        Some(DataType::Nullable(Box::new(DataType::Text)))
    );
}

#[test]
fn first_declaration_of_a_column_fixes_its_type() {
    let mut schema = Schema::new();
    schema.record("t", &vec![decl("v", DeclaredType::Integer, true, false)]);
    schema.record("t", &vec![decl("v", DeclaredType::Text, true, false)]);
    assert_eq!(schema.resolve("t", "v"), Some(DataType::Integer));
}

#[test]
fn unconstrained_columns_are_nullable() {
    let mut schema = Schema::new();
    schema.record(
        "t",
        &vec![
            decl("a", DeclaredType::Integer, false, false),
            decl("b", DeclaredType::Integer, false, true),
            decl("c", DeclaredType::Text, false, true),
            decl("d", DeclaredType::Other, false, false),
        ],
    );
    assert_eq!(
        schema.resolve("t", "a"),
        Some(DataType::Nullable(Box::new(DataType::Integer)))
    );
    // an integer primary key is implicitly non-null
    assert_eq!(schema.resolve("t", "b"), Some(DataType::Integer));
    // a text primary key is not
    assert_eq!(
        schema.resolve("t", "c"),
        Some(DataType::Nullable(Box::new(DataType::Text)))
    );
    assert_eq!(
        schema.resolve("t", "d"),
        Some(DataType::Nullable(Box::new(DataType::Any)))
    );
}

#[test]
fn insert_returning_classifies_inputs_and_outputs() {
    let mut schema = Schema::new();
    schema.record(
        "t",
        &vec![
            decl("id", DeclaredType::Integer, false, true),
            decl("title", DeclaredType::Text, true, false),
        ],
    );
    let insert = SqlStatement::Insert(Insert {
        table: "t".to_string(),
        columns: vec!["title".to_string()],
        source: InsertSource::Values(vec![vec![Expr::Placeholder("?".to_string())]]),
        returning: Some(vec![SelectItem::Star]),
        conflict_do_nothing: false,
    });
    let st = resolve_statement(
        &schema,
        "insert_t",
        "insert into t (title) values (?) returning *",
        &insert,
        &Some(ResultOverride::Single("Row".to_string())),
    )
    .unwrap();

    assert_eq!(input_names(&st), vec!["title".to_string()]);
    assert_eq!(query_shape(&st), ReturnShape::Row);
    match &st {
        Statement::Query { input_columns, output_columns, .. } => {
            assert_eq!(input_columns[0].data_type, DataType::Text);
            let fields: Vec<(String, DataType)> = output_columns
                .iter()
                .map(|c| (c.name.clone(), c.data_type.clone()))
                .collect();
            // both columns are constrained, so neither is nullable
            assert_eq!(
                fields,
                vec![
                    ("id".to_string(), DataType::Integer),
                    ("title".to_string(), DataType::Text)
                ]
            );
        }
        _ => panic!("expected a query"),
    }
}

#[test]
fn insert_returning_generates_a_typed_record() {
    let mut schema = Schema::new();
    schema.record(
        "t",
        &vec![
            decl("id", DeclaredType::Integer, false, true),
            decl("title", DeclaredType::Text, true, false),
        ],
    );
    let insert = SqlStatement::Insert(Insert {
        table: "t".to_string(),
        columns: vec!["title".to_string()],
        source: InsertSource::Values(vec![vec![Expr::Placeholder("?".to_string())]]),
        returning: Some(vec![SelectItem::TableStar("t".to_string())]),
        conflict_do_nothing: false,
    });
    let st = resolve_statement(
        &schema,
        "insert_post",
        "insert into t (title) values (?) returning t.*",
        &insert,
        &None,
    )
    .unwrap();
    let accessor = emit_accessor(&st);

    assert_eq!(accessor.shape, AccessorShape::Row);
    assert_eq!(accessor.parameters.len(), 1);
    assert_eq!(accessor.parameters[0].name, "title");
    assert_eq!(accessor.parameters[0].host_type, HostType::Text);
    match accessor.record {
        Some(RecordDescription::Generated(record)) => {
            assert_eq!(record.name, "InsertPost");
            assert_eq!(record.names_name, "InsertPostNames");
            let fields: Vec<(String, HostType)> = record
                .fields
                .iter()
                .map(|f| (f.name.clone(), f.host_type.clone()))
                .collect();
            assert_eq!(
                fields,
                vec![
                    ("id".to_string(), HostType::Int64),
                    ("title".to_string(), HostType::Text)
                ]
            );
        }
        _ => panic!("expected a generated record"),
    }
}

#[test]
fn update_classifies_set_targets_then_where_columns() {
    let schema = posts_schema();
    let update = SqlStatement::Update(Update {
        tables: vec!["posts".to_string()],
        assignments: vec![Assignment {
            column: "title".to_string(),
            value: Expr::Placeholder("?".to_string()),
        }],
        selection: Some(Expr::Binary(
            Box::new(Expr::Column("id".to_string())),
            Box::new(Expr::Placeholder("?".to_string())),
        )),
        returning: Some(vec![SelectItem::TableStar("posts".to_string())]),
    });
    let st = resolve_statement(
        &schema,
        "update_post",
        "update posts set title = ? where id = ? returning *",
        &update,
        &None,
    )
    .unwrap();

    // SET targets come first, WHERE columns after, whatever the SQL order
    assert_eq!(
        input_names(&st),
        vec!["title".to_string(), "id".to_string()]
    );
    assert_eq!(query_shape(&st), ReturnShape::Row);
}

use ryde::ast::Update;

#[test]
fn select_count_star_is_a_scalar_accessor() {
    let schema = posts_schema();
    let select = SqlStatement::Select(Box::new(Select {
        from: vec!["posts".to_string()],
        projection: vec![SelectItem::Expression(Expr::Count(CountArg::Star))],
        selection: None,
        limit: None,
    }));
    let st = resolve_statement(&schema, "post_count", "select count(*) from posts", &select, &None)
        .unwrap();
    let accessor = emit_accessor(&st);

    assert!(matches!(st, Statement::ScalarAggregateQuery { .. }));
    assert_eq!(accessor.shape, AccessorShape::Scalar);
    assert_eq!(accessor.parameters.len(), 0);
    assert_eq!(accessor.record, None);
}

#[test]
fn limit_one_yields_optional_row_and_other_limits_yield_rows() {
    let schema = posts_schema();
    let cases: Vec<(Option<Limit>, ReturnShape)> = vec![
        (Some(Limit::Number("1".to_string())), ReturnShape::OptionalRow),
        (Some(Limit::Number("2".to_string())), ReturnShape::Rows),
        (Some(Limit::Other), ReturnShape::Rows),
        (None, ReturnShape::Rows),
    ];
    for (limit, expected) in cases {
        let st = resolve_statement(
            &schema,
            "select_posts",
            "select posts.* from posts",
            &select_posts(limit),
            &None,
        )
        .unwrap();
        assert_eq!(query_shape(&st), expected);
    }
}

#[test]
fn count_is_scalar_whatever_the_limit_says() {
    let schema = posts_schema();
    for limit in [None, Some(Limit::Number("1".to_string())), Some(Limit::Number("5".to_string()))]
    {
        let select = SqlStatement::Select(Box::new(Select {
            from: vec!["posts".to_string()],
            projection: vec![SelectItem::Expression(Expr::Count(CountArg::Star))],
            selection: None,
            limit,
        }));
        let st =
            resolve_statement(&schema, "post_count", "select count(*) from posts", &select, &None)
                .unwrap();
        assert!(matches!(st, Statement::ScalarAggregateQuery { .. }));
    }
}

#[test]
fn count_of_a_column_is_scalar_too() {
    let schema = posts_schema();
    let select = SqlStatement::Select(Box::new(Select {
        from: vec!["posts".to_string()],
        projection: vec![SelectItem::Expression(Expr::Count(CountArg::Expression(Box::new(
            Expr::Column("id".to_string()),
        ))))],
        selection: None,
        limit: None,
    }));
    let st = resolve_statement(&schema, "id_count", "select count(id) from posts", &select, &None)
        .unwrap();
    assert!(matches!(st, Statement::ScalarAggregateQuery { .. }));
}

fn insert_posts_returning(conflict_do_nothing: bool) -> SqlStatement {
    SqlStatement::Insert(Insert {
        table: "posts".to_string(),
        columns: vec!["id".to_string(), "title".to_string()],
        source: InsertSource::Values(vec![vec![
            Expr::Placeholder("?".to_string()),
            Expr::Placeholder("?".to_string()),
        ]]),
        returning: Some(vec![SelectItem::TableStar("posts".to_string())]),
        conflict_do_nothing,
    })
}

#[test]
fn conflict_do_nothing_with_returning_yields_optional_row() {
    let schema = posts_schema();
    let st = resolve_statement(
        &schema,
        "create_post",
        "insert into posts (id, title) values (?, ?) on conflict (id) do nothing returning *",
        &insert_posts_returning(true),
        &None,
    )
    .unwrap();
    assert_eq!(query_shape(&st), ReturnShape::OptionalRow);

    let st = resolve_statement(
        &schema,
        "insert_post",
        "insert into posts (id, title) values (?, ?) returning *",
        &insert_posts_returning(false),
        &None,
    )
    .unwrap();
    assert_eq!(query_shape(&st), ReturnShape::Row);
}

#[test]
fn update_and_delete_with_returning_yield_exactly_one_row() {
    let schema = posts_schema();
    let delete = SqlStatement::Delete(Delete {
        tables: vec!["posts".to_string()],
        selection: Some(Expr::Binary(
            Box::new(Expr::Column("id".to_string())),
            Box::new(Expr::Placeholder("?".to_string())),
        )),
        returning: Some(vec![SelectItem::TableStar("posts".to_string())]),
    });
    let st = resolve_statement(
        &schema,
        "delete_post",
        "delete from posts where id = ? returning *",
        &delete,
        &None,
    )
    .unwrap();
    assert_eq!(query_shape(&st), ReturnShape::Row);
    assert_eq!(input_names(&st), vec!["id".to_string()]);
}

#[test]
fn statements_without_returning_execute_with_an_affected_row_count() {
    let schema = posts_schema();
    let insert = SqlStatement::Insert(Insert {
        table: "posts".to_string(),
        columns: vec!["title".to_string()],
        source: InsertSource::Values(vec![vec![Expr::Placeholder("?".to_string())]]),
        returning: None,
        conflict_do_nothing: false,
    });
    let st = resolve_statement(
        &schema,
        "add_post",
        "insert into posts (title) values (?)",
        &insert,
        &None,
    )
    .unwrap();
    assert!(matches!(st, Statement::Execute { .. }));
    let accessor = emit_accessor(&st);
    assert_eq!(accessor.shape, AccessorShape::AffectedRows);
    assert_eq!(accessor.parameters.len(), 1);
    assert_eq!(accessor.record, None);
}

#[test]
fn placeholder_count_mismatch_is_fatal() {
    let schema = posts_schema();
    let insert = SqlStatement::Insert(Insert {
        table: "posts".to_string(),
        columns: vec!["id".to_string(), "title".to_string()],
        source: InsertSource::Values(vec![vec![Expr::Placeholder("?".to_string())]]),
        returning: None,
        conflict_do_nothing: false,
    });
    let r = resolve_statement(
        &schema,
        "insert_post",
        "insert into posts (id, title) values (?)",
        &insert,
        &None,
    );
    assert_eq!(
        r,
        Err(BuildError::PlaceholderCountMismatch {
            statement: "insert_post".to_string(),
            columns: 2
        })
    );
}

#[test]
fn insert_select_sources_skip_the_placeholder_check() {
    let schema = posts_schema();
    let insert = SqlStatement::Insert(Insert {
        table: "posts".to_string(),
        columns: vec![],
        source: InsertSource::Other,
        returning: None,
        conflict_do_nothing: false,
    });
    let st = resolve_statement(
        &schema,
        "insert_select",
        "insert into posts select * from staging",
        &insert,
        &None,
    )
    .unwrap();
    assert!(matches!(st, Statement::Execute { .. }));
}

#[test]
fn unknown_table_reference_is_fatal() {
    let defs = vec![StatementDefinition {
        identifier: "select_posts".to_string(),
        sql: "select posts.* from posts".to_string(),
        statements: vec![select_posts(None)],
        result_override: None,
    }];
    assert_eq!(
        generate(&defs),
        Err(BuildError::UnknownTable {
            statement: "select_posts".to_string(),
            table: "posts".to_string()
        })
    );
}

#[test]
fn unknown_column_reference_is_fatal() {
    let schema = posts_schema();
    let insert = SqlStatement::Insert(Insert {
        table: "posts".to_string(),
        columns: vec!["subtitle".to_string()],
        source: InsertSource::Values(vec![vec![Expr::Placeholder("?".to_string())]]),
        returning: None,
        conflict_do_nothing: false,
    });
    let r = resolve_statement(
        &schema,
        "insert_post",
        "insert into posts (subtitle) values (?)",
        &insert,
        &None,
    );
    assert_eq!(r, Err(BuildError::UnknownColumn { column: "subtitle".to_string() }));
}

#[test]
fn override_demands_full_returning_coverage() {
    let schema = posts_schema();
    let insert = SqlStatement::Insert(Insert {
        table: "posts".to_string(),
        columns: vec!["title".to_string()],
        source: InsertSource::Values(vec![vec![Expr::Placeholder("?".to_string())]]),
        returning: Some(vec![SelectItem::Expression(Expr::Column("title".to_string()))]),
        conflict_do_nothing: false,
    });
    let r = resolve_statement(
        &schema,
        "insert_post",
        "insert into posts (title) values (?) returning title",
        &insert,
        &Some(ResultOverride::Single("Post".to_string())),
    );
    assert_eq!(
        r,
        Err(BuildError::MissingReturningColumn {
            statement: "insert_post".to_string(),
            column: "id".to_string(),
            table: "posts".to_string()
        })
    );
}

#[test]
fn update_without_a_table_is_fatal() {
    let schema = posts_schema();
    let update = SqlStatement::Update(Update {
        tables: vec![],
        assignments: vec![],
        selection: None,
        returning: None,
    });
    let r = resolve_statement(&schema, "broken", "update", &update, &None);
    assert_eq!(r, Err(BuildError::MissingTableName { statement: "broken".to_string() }));
}

#[test]
fn unqualified_wildcard_needs_an_override() {
    let schema = posts_schema();
    let select = SqlStatement::Select(Box::new(Select {
        from: vec!["posts".to_string()],
        projection: vec![SelectItem::Star],
        selection: None,
        limit: None,
    }));
    let r = resolve_statement(&schema, "select_posts", "select * from posts", &select, &None);
    assert_eq!(r, Err(BuildError::UnqualifiedWildcard));

    let ok = resolve_statement(
        &schema,
        "select_posts",
        "select * from posts",
        &select,
        &Some(ResultOverride::Collection("Post".to_string())),
    );
    assert!(ok.is_ok());
}

#[test]
fn only_bare_question_mark_placeholders_are_supported() {
    let schema = posts_schema();
    let select = SqlStatement::Select(Box::new(Select {
        from: vec!["posts".to_string()],
        projection: vec![SelectItem::TableStar("posts".to_string())],
        selection: Some(Expr::Binary(
            Box::new(Expr::Column("id".to_string())),
            Box::new(Expr::Placeholder("?1".to_string())),
        )),
        limit: None,
    }));
    let r = resolve_statement(
        &schema,
        "select_post",
        "select posts.* from posts where id = ?1",
        &select,
        &None,
    );
    assert_eq!(r, Err(BuildError::UnsupportedPlaceholder { token: "?1".to_string() }));
}

#[test]
fn unsupported_statements_and_empty_definitions_are_fatal() {
    let schema = posts_schema();
    let r = resolve_statement(&schema, "weird", "...", &SqlStatement::Unsupported, &None);
    assert_eq!(r, Err(BuildError::UnsupportedStatement { statement: "weird".to_string() }));

    let defs = vec![StatementDefinition {
        identifier: "empty".to_string(),
        sql: "".to_string(),
        statements: vec![],
        result_override: None,
    }];
    assert_eq!(
        generate(&defs),
        Err(BuildError::EmptyDefinition { statement: "empty".to_string() })
    );
}

#[test]
fn in_subqueries_classify_their_condition() {
    let schema = posts_schema();
    let delete = SqlStatement::Delete(Delete {
        tables: vec!["posts".to_string()],
        selection: Some(Expr::InSubquery(SubqueryCondition::Condition(Box::new(Expr::Binary(
            Box::new(Expr::Column("title".to_string())),
            Box::new(Expr::Placeholder("?".to_string())),
        ))))),
        returning: None,
    });
    let st = resolve_statement(
        &schema,
        "delete_matching",
        "delete from posts where id in (select id from posts where title = ?)",
        &delete,
        &None,
    )
    .unwrap();
    assert_eq!(input_names(&st), vec!["title".to_string()]);
}

#[test]
fn generation_runs_in_definition_order() {
    let defs = vec![
        StatementDefinition {
            identifier: "create_posts".to_string(),
            sql: "create table posts (id integer primary key not null, title text not null, test integer)".to_string(),
            statements: vec![SqlStatement::CreateTable(CreateTable {
                table: "posts".to_string(),
                columns: posts_decls(),
            })],
            result_override: Some(ResultOverride::Single("Post".to_string())),
        },
        StatementDefinition {
            identifier: "insert_post".to_string(),
            sql: "insert into posts (title, test) values (?, ?) returning *".to_string(),
            statements: vec![SqlStatement::Insert(Insert {
                table: "posts".to_string(),
                columns: vec!["title".to_string(), "test".to_string()],
                source: InsertSource::Values(vec![vec![
                    Expr::Placeholder("?".to_string()),
                    Expr::Placeholder("?".to_string()),
                ]]),
                returning: Some(vec![SelectItem::Star]),
                conflict_do_nothing: false,
            })],
            result_override: Some(ResultOverride::Single("Post".to_string())),
        },
        StatementDefinition {
            identifier: "select_posts".to_string(),
            sql: "select posts.* from posts".to_string(),
            statements: vec![select_posts(None)],
            result_override: Some(ResultOverride::Collection("Post".to_string())),
        },
        StatementDefinition {
            identifier: "post_count".to_string(),
            sql: "select count(*) from posts".to_string(),
            statements: vec![SqlStatement::Select(Box::new(Select {
                from: vec!["posts".to_string()],
                projection: vec![SelectItem::Expression(Expr::Count(CountArg::Star))],
                selection: None,
                limit: None,
            }))],
            result_override: None,
        },
    ];

    let accessors = generate(&defs).unwrap();
    assert_eq!(accessors.len(), 4);

    assert_eq!(accessors[0].identifier, "create_posts");
    assert_eq!(accessors[0].shape, AccessorShape::Batch);
    match &accessors[0].record {
        Some(RecordDescription::Generated(record)) => {
            assert_eq!(record.name, "Post");
            assert_eq!(record.names_name, "PostNames");
            let fields: Vec<(String, HostType)> = record
                .fields
                .iter()
                .map(|f| (f.name.clone(), f.host_type.clone()))
                .collect();
            assert_eq!(
                fields,
                vec![
                    ("id".to_string(), HostType::Int64),
                    ("title".to_string(), HostType::Text),
                    ("test".to_string(), HostType::Optional(Box::new(HostType::Int64))),
                ]
            );
        }
        _ => panic!("expected the table's record"),
    }

    assert_eq!(accessors[1].identifier, "insert_post");
    assert_eq!(accessors[1].shape, AccessorShape::Row);
    assert_eq!(accessors[1].record, Some(RecordDescription::Reused("Post".to_string())));
    let params: Vec<(String, HostType)> = accessors[1]
        .parameters
        .iter()
        .map(|f| (f.name.clone(), f.host_type.clone()))
        .collect();
    assert_eq!(
        params,
        vec![
            ("title".to_string(), HostType::Text),
            ("test".to_string(), HostType::Optional(Box::new(HostType::Int64))),
        ]
    );

    assert_eq!(accessors[2].shape, AccessorShape::Rows);
    assert_eq!(accessors[2].record, Some(RecordDescription::Reused("Post".to_string())));

    assert_eq!(accessors[3].shape, AccessorShape::Scalar);
    assert_eq!(accessors[3].record, None);
    assert_eq!(accessors[3].parameters.len(), 0);
}

#[test]
fn alter_table_extends_the_schema_for_later_statements() {
    let defs = vec![
        StatementDefinition {
            identifier: "create_items".to_string(),
            sql: "create table items (value integer not null)".to_string(),
            statements: vec![SqlStatement::CreateTable(CreateTable {
                table: "items".to_string(),
                columns: vec![decl("value", DeclaredType::Integer, true, false)],
            })],
            result_override: None,
        },
        StatementDefinition {
            identifier: "add_label".to_string(),
            sql: "alter table items add column label text not null".to_string(),
            statements: vec![SqlStatement::AlterTable(AlterTable {
                table: "items".to_string(),
                added: vec![decl("label", DeclaredType::Text, true, false)],
            })],
            result_override: None,
        },
        StatementDefinition {
            identifier: "find_item".to_string(),
            sql: "select items.* from items where label = ? limit 1".to_string(),
            statements: vec![SqlStatement::Select(Box::new(Select {
                from: vec!["items".to_string()],
                projection: vec![SelectItem::TableStar("items".to_string())],
                selection: Some(Expr::Binary(
                    Box::new(Expr::Column("label".to_string())),
                    Box::new(Expr::Placeholder("?".to_string())),
                )),
                limit: Some(Limit::Number("1".to_string())),
            }))],
            result_override: None,
        },
    ];

    let accessors = generate(&defs).unwrap();
    assert_eq!(accessors[1].shape, AccessorShape::Batch);
    assert_eq!(accessors[2].shape, AccessorShape::OptionalRow);
    let params: Vec<String> = accessors[2].parameters.iter().map(|f| f.name.clone()).collect();
    assert_eq!(params, vec!["label".to_string()]);
}

#[test]
fn expressions_outside_the_subset_are_fatal() {
    let schema = posts_schema();
    let select = SqlStatement::Select(Box::new(Select {
        from: vec!["posts".to_string()],
        projection: vec![SelectItem::TableStar("posts".to_string())],
        selection: Some(Expr::Unsupported),
        limit: None,
    }));
    let r = resolve_statement(
        &schema,
        "select_posts",
        "select posts.* from posts where length(title) > 3",
        &select,
        &None,
    );
    assert_eq!(r, Err(BuildError::UnsupportedExpression));
}

#[test]
fn execute_batch_statements_take_nothing_and_return_nothing() {
    let schema = posts_schema();
    let st = resolve_statement(&schema, "tune", "pragma journal_mode = wal", &SqlStatement::Other, &None)
        .unwrap();
    assert!(matches!(st, Statement::ExecuteBatch { .. }));
    let accessor = emit_accessor(&st);
    assert_eq!(accessor.shape, AccessorShape::Batch);
    assert_eq!(accessor.parameters.len(), 0);
    assert_eq!(accessor.record, None);
}
