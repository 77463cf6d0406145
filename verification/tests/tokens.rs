use canonical_store::mysql_token::{
    coordinate_reached, current_token_reaches, gtid_mode_on, mysql_file_token, mysql_gtid_token,
    mysql_token_form, wait_timeout_secs, MysqlTokenForm,
};
use canonical_store::token::{seq_durability_token, seq_wait_target_of, wait_step, DurabilityToken, WaitStep};

#[test]
fn durability_token_remembers_its_backend() {
    let pg = DurabilityToken::new("postgres", "0/1A2B3C4D");
    assert!(pg.is_for("postgres"));
    assert!(pg.is_for("POSTGRES"), "case-insensitive");
    assert!(!pg.is_for("mysql"));

    let mysql = DurabilityToken::new("mysql", "binlog.000123:4567");
    assert!(mysql.is_for("mysql"));
    assert!(!mysql.is_for("postgres"));
}

#[test]
fn minted_sequence_token_is_waited_on_by_its_store() {
    let t = seq_durability_token("neo4j", -17);
    assert_eq!(t.value, "-17");
    assert_eq!(seq_wait_target_of("Neo4jCanonicalStore", "neo4j", &t, true), Ok(-17));
    assert_eq!(seq_wait_target_of("Neo4jCanonicalStore", "NEO4J", &t, true), Ok(-17));
}

#[test]
fn foreign_and_malformed_tokens_have_exact_messages() {
    let foreign = DurabilityToken::new("postgres", "0/100");
    assert_eq!(
        seq_wait_target_of("MongoDbCanonicalStore", "mongodb", &foreign, false),
        Err("MongoDbCanonicalStore cannot wait on a 'postgres' token".to_string())
    );
    let bad = DurabilityToken::new("mongodb", "12x");
    assert_eq!(
        seq_wait_target_of("MongoDbCanonicalStore", "mongodb", &bad, false),
        Err("malformed mongodb durability token '12x'".to_string())
    );
    let detailed = seq_wait_target_of("Neo4jCanonicalStore", "mongodb", &bad, true).unwrap_err();
    assert!(detailed.starts_with("malformed mongodb durability token '12x': "));
}

#[test]
fn wait_step_clears_before_timing_out() {
    assert_eq!(wait_step(10, 10, 5_000, 1_000), WaitStep::Cleared);
    assert_eq!(wait_step(9, 10, 1_000, 1_000), WaitStep::TimedOut);
    assert_eq!(wait_step(9, 10, 999, 1_000), WaitStep::Poll);
}

#[test]
fn mysql_tokens_round_trip_through_their_forms() {
    let g = mysql_gtid_token("uuid:1-9");
    assert_eq!(g.backend_label, "mysql");
    assert_eq!(g.value, "gtid:uuid:1-9");
    assert_eq!(mysql_token_form(&g.value), Ok(MysqlTokenForm::Gtid("uuid:1-9".to_string())));

    let f = mysql_file_token("binlog.000007", 154);
    assert_eq!(f.value, "file:binlog.000007:154");
    assert_eq!(
        mysql_token_form(&f.value),
        Ok(MysqlTokenForm::FilePos { file: "binlog.000007".to_string(), pos: 154 })
    );
    assert_eq!(mysql_token_form("binlog.000123:4567"), Ok(MysqlTokenForm::Other));
    assert!(mysql_token_form("file:binlog.000007").is_err());
    assert!(mysql_token_form("file:binlog.000007:x").is_err());
}

#[test]
fn binlog_coordinates_compare_in_replication_order() {
    assert!(coordinate_reached("binlog.000008", 4, "binlog.000007", 900));
    assert!(coordinate_reached("binlog.000007", 900, "binlog.000007", 900));
    assert!(!coordinate_reached("binlog.000007", 899, "binlog.000007", 900));
    assert!(!coordinate_reached("binlog.000006", 10_000, "binlog.000007", 1));
    assert!(current_token_reaches("file:binlog.000008:4", "binlog.000007", 900));
    assert!(!current_token_reaches("gtid:abc:1-3", "binlog.000007", 900));
}

#[test]
fn gtid_mode_and_wait_timeout_readings() {
    assert!(gtid_mode_on(Some("ON")));
    assert!(gtid_mode_on(Some("on_permissive")));
    assert!(!gtid_mode_on(Some("OFF_PERMISSIVE")));
    assert!(!gtid_mode_on(None));
    assert_eq!(wait_timeout_secs(0), 1);
    assert_eq!(wait_timeout_secs(30), 30);
}
