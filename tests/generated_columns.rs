use generated_columns::batch::{Batch, Column, DataType, Scalar};
use generated_columns::generated::{
    add_generated_column, add_generated_columns, generate_columns_for_write, GeneratedColumn,
    GenerationError,
};
use generated_columns::placeholders::add_missing_generated_columns;
use generated_columns::protocol::{able_to_gc, Protocol, WriterFeature};

fn protocol(version: i32, features: Option<Vec<WriterFeature>>) -> Protocol {
    Protocol { min_writer_version: version, writer_features: features }
}

fn column(name: &str, data_type: Option<DataType>, values: Vec<Option<Scalar>>) -> Column {
    Column { name: name.to_string(), data_type, values }
}

fn year_column() -> GeneratedColumn {
    GeneratedColumn {
        name: "year".to_string(),
        generation_expression: "YEAR(event_time)".to_string(),
        data_type: DataType::Integer,
        nullable: true,
    }
}

fn date(s: &str) -> Option<Scalar> {
    Some(Scalar::Utf8(s.to_string()))
}

fn event_batch() -> Batch {
    Batch {
        num_rows: 2,
        columns: vec![
            column("event_time", Some(DataType::Utf8), vec![date("2023-05-01"), date("2023-05-01")]),
            column("year", Some(DataType::Integer), vec![None, Some(Scalar::Integer(1999))]),
        ],
    }
}

fn values_of(b: &Batch, name: &str) -> Vec<Option<Scalar>> {
    b.columns.iter().find(|c| c.name == name).unwrap().values.clone()
}

fn same_cells(a: &[Option<Scalar>], b: &[Option<Scalar>]) -> bool {
    format!("{:?}", a) == format!("{:?}", b)
}

#[test]
fn legacy_protocol_always_allows() {
    for v in [0, 1, 2, 3, 4, 7, 100] {
        assert!(able_to_gc(&protocol(v, None)));
    }
}

#[test]
fn writer_version_three_denies() {
    assert!(!able_to_gc(&protocol(3, Some(vec![]))));
    assert!(!able_to_gc(&protocol(3, Some(vec![WriterFeature::GeneratedColumns]))));
}

#[test]
fn writer_version_seven_needs_feature() {
    assert!(!able_to_gc(&protocol(7, Some(vec![]))));
    assert!(!able_to_gc(&protocol(7, Some(vec![WriterFeature::AppendOnly, WriterFeature::Unknown(3)]))));
    assert!(able_to_gc(&protocol(7, Some(vec![WriterFeature::GeneratedColumns]))));
    assert!(able_to_gc(&protocol(7, Some(vec![WriterFeature::AppendOnly, WriterFeature::GeneratedColumns]))));
}

#[test]
fn writer_versions_four_to_six_allow() {
    for v in [4, 5, 6] {
        assert!(able_to_gc(&protocol(v, Some(vec![WriterFeature::AppendOnly]))));
        assert!(able_to_gc(&protocol(v, Some(vec![WriterFeature::ChangeDataFeed, WriterFeature::Invariants]))));
    }
}

#[test]
fn placeholders_added_for_missing_columns() {
    let b = Batch {
        num_rows: 3,
        columns: vec![column("id", Some(DataType::Long), vec![Some(Scalar::Long(1)), Some(Scalar::Long(2)), Some(Scalar::Long(3))])],
    };
    let out = add_missing_generated_columns(b, &[year_column()]);
    assert_eq!(out.num_rows, 3);
    assert_eq!(out.columns.len(), 2);
    assert_eq!(out.columns[0].name, "id");
    assert_eq!(out.columns[1].name, "year");
    assert_eq!(out.columns[1].data_type, None);
    assert!(same_cells(&out.columns[1].values, &[None, None, None]));
}

#[test]
fn placeholders_idempotent() {
    let b = Batch {
        num_rows: 1,
        columns: vec![column("event_time", Some(DataType::Utf8), vec![date("2023-05-01")])],
    };
    let once = add_missing_generated_columns(b, &[year_column()]);
    let twice = add_missing_generated_columns(once.clone(), &[year_column()]);
    assert_eq!(format!("{:?}", once), format!("{:?}", twice));
}

#[test]
fn placeholders_keep_existing_all_null_column() {
    let b = Batch {
        num_rows: 2,
        columns: vec![
            column("year", Some(DataType::Integer), vec![None, None]),
            column("event_time", Some(DataType::Utf8), vec![date("a"), date("b")]),
        ],
    };
    let before = format!("{:?}", b);
    let out = add_missing_generated_columns(b, &[year_column()]);
    assert_eq!(format!("{:?}", out), before);
}

#[test]
fn end_to_end_year_example() {
    let computed = vec![Some(Scalar::Integer(2023)), Some(Scalar::Integer(2023))];
    let out = add_generated_columns(event_batch(), &[year_column()], vec![Ok(computed)]).unwrap();
    assert_eq!(out.num_rows, 2);
    assert!(same_cells(&values_of(&out, "year"), &[Some(Scalar::Integer(2023)), Some(Scalar::Integer(1999))]));
    assert!(same_cells(&values_of(&out, "event_time"), &[date("2023-05-01"), date("2023-05-01")]));
    assert_eq!(out.columns[1].data_type, Some(DataType::Integer));
}

#[test]
fn injected_placeholder_then_resolved() {
    let b = Batch {
        num_rows: 2,
        columns: vec![column("event_time", Some(DataType::Utf8), vec![date("2020-01-01"), date("2021-01-01")])],
    };
    let b = add_missing_generated_columns(b, &[year_column()]);
    let computed = vec![Some(Scalar::Integer(2020)), Some(Scalar::Integer(2021))];
    let out = add_generated_column(b, &year_column(), Ok(computed)).unwrap();
    assert!(same_cells(&values_of(&out, "year"), &[Some(Scalar::Integer(2020)), Some(Scalar::Integer(2021))]));
}

#[test]
fn denied_protocol_leaves_batch_as_supplied() {
    let p = protocol(7, Some(vec![]));
    assert!(!able_to_gc(&p));
    let computed = vec![Some(Scalar::Integer(2023)), Some(Scalar::Integer(2023))];
    let out = generate_columns_for_write(&p, event_batch(), &[year_column()], vec![Ok(computed)]).unwrap();
    assert_eq!(format!("{:?}", out), format!("{:?}", event_batch()));
    assert!(same_cells(&values_of(&out, "year"), &[None, Some(Scalar::Integer(1999))]));
}

#[test]
fn allowed_protocol_resolves() {
    let p = protocol(7, Some(vec![WriterFeature::GeneratedColumns]));
    let computed = vec![Some(Scalar::Integer(2023)), Some(Scalar::Integer(2023))];
    let out = generate_columns_for_write(&p, event_batch(), &[year_column()], vec![Ok(computed)]).unwrap();
    assert!(same_cells(&values_of(&out, "year"), &[Some(Scalar::Integer(2023)), Some(Scalar::Integer(1999))]));
}

#[test]
fn binding_failure_reported() {
    let r = add_generated_columns(event_batch(), &[year_column()], vec![Err("no column event".to_string())]);
    match r {
        Err(GenerationError::ExpressionBinding { column, message }) => {
            assert_eq!(column, "year");
            assert_eq!(message, "no column event");
        }
        other => panic!("unexpected {:?}", other),
    }
}

#[test]
fn cast_failure_reported() {
    let computed = vec![Some(Scalar::Utf8("2023".to_string())), None];
    match add_generated_columns(event_batch(), &[year_column()], vec![Ok(computed)]) {
        Err(GenerationError::TypeCast { column, data_type }) => {
            assert_eq!(column, "year");
            assert_eq!(data_type, DataType::Integer);
        }
        other => panic!("unexpected {:?}", other),
    }
}

#[test]
fn duplicate_column_is_schema_mismatch() {
    let mut b = event_batch();
    b.columns.push(column("year", None, vec![None, None]));
    let computed = vec![Some(Scalar::Integer(2023)), Some(Scalar::Integer(2023))];
    match add_generated_columns(b, &[year_column()], vec![Ok(computed)]) {
        Err(GenerationError::SchemaMismatch { column }) => assert_eq!(column, "year"),
        other => panic!("unexpected {:?}", other),
    }
}

#[test]
fn missing_column_is_schema_mismatch() {
    let b = Batch { num_rows: 1, columns: vec![column("event_time", Some(DataType::Utf8), vec![date("x")])] };
    match add_generated_columns(b, &[year_column()], vec![Ok(vec![Some(Scalar::Integer(1))])]) {
        Err(GenerationError::SchemaMismatch { column }) => assert_eq!(column, "year"),
        other => panic!("unexpected {:?}", other),
    }
}

#[test]
fn short_evaluation_is_schema_mismatch() {
    match add_generated_columns(event_batch(), &[year_column()], vec![Ok(vec![Some(Scalar::Integer(1))])]) {
        Err(GenerationError::SchemaMismatch { column }) => assert_eq!(column, "year"),
        other => panic!("unexpected {:?}", other),
    }
}

#[test]
fn first_failure_stops_resolution() {
    let month = GeneratedColumn {
        name: "month".to_string(),
        generation_expression: "MONTH(event_time)".to_string(),
        data_type: DataType::Integer,
        nullable: false,
    };
    let computed = vec![Some(Scalar::Integer(2023)), Some(Scalar::Integer(2023))];
    let r = add_generated_columns(event_batch(), &[month, year_column()], vec![Err("bad".to_string()), Ok(computed)]);
    match r {
        Err(GenerationError::ExpressionBinding { column, .. }) => assert_eq!(column, "month"),
        other => panic!("unexpected {:?}", other),
    }
}

#[test]
fn empty_batch_and_no_generated_columns() {
    let b = Batch { num_rows: 0, columns: vec![] };
    let out = add_missing_generated_columns(b, &[]);
    assert_eq!(out.columns.len(), 0);
    let out = add_generated_columns(out, &[], vec![]).unwrap();
    assert_eq!(out.num_rows, 0);
    assert_eq!(out.columns.len(), 0);
}

#[test]
fn null_result_stays_null_when_computed_null() {
    let computed = vec![None, Some(Scalar::Integer(5))];
    let out = add_generated_columns(event_batch(), &[year_column()], vec![Ok(computed)]).unwrap();
    assert!(same_cells(&values_of(&out, "year"), &[None, Some(Scalar::Integer(1999))]));
}

#[test]
fn getters_return_fields() {
    let g = year_column();
    assert_eq!(g.get_name(), "year");
    assert_eq!(g.get_generation_expression(), "YEAR(event_time)");
}
