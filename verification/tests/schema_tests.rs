use ezpz::schema::{EDbExperienceLevel, EDbInternalStatus, EDbPayType, EDbSearchQuery, EDbTimeEstimate};

#[test]
fn database_type_names() {
    assert_eq!(EDbExperienceLevel::postgres_type_name(), "e_db_experience_level");
    assert_eq!(EDbInternalStatus::postgres_type_name(), "e_db_internal_status");
    assert_eq!(EDbPayType::postgres_type_name(), "e_db_pay_type");
    assert_eq!(EDbSearchQuery::postgres_type_name(), "e_db_search_query");
    assert_eq!(EDbTimeEstimate::postgres_type_name(), "e_db_time_estimate");
}
