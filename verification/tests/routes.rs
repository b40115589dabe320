use fishy_edge::routes::admin::fish_type::{update_fish_type_image, FishTypeImageData, ImageColumn};
use fishy_edge::routes::get_fishs::fishs;
use fishy_edge::routes::min_and_max::{
    get_min_and_max_data, get_min_and_max_of_avg_data, is_valid_attr, is_valid_lake, min_and_max,
    MinMaxPlan, MinMaxQuery,
};
use fishy_edge::routes::user::update::profile::Sex;

fn query(lake: Option<&str>, attr: &str) -> MinMaxQuery {
    MinMaxQuery { lake: lake.map(|l| l.to_string()), attr: attr.to_string() }
}

/// The text of the statement that a plan runs, with the placeholders of
/// the values that were bound; `None` where the plan runs nothing.
fn sql(plan: MinMaxPlan<'_>) -> Option<String> {
    match plan {
        MinMaxPlan::Run(statement) => Some(statement.builder.sql().to_string()),
        MinMaxPlan::NotAcceptable => None,
    }
}

const FOR_HURON_PCB: &str = "SELECT fish_type.name, fish_type.anishinaabe_name, pcb as value FROM fish JOIN fish_type ON \
     fish.fish_type_id=fish_type.id WHERE (pcb=(SELECT MAX(pcb) FROM fish WHERE lake=$1) AND \
     fish.lake=$2) OR (pcb=(SELECT MIN(pcb) FROM fish where lake=$3) AND fish.lake=$4) ORDER BY pcb;";

const FOR_AVERAGE_MERCURY: &str = "SELECT fish_type.name, fish_type.anishinaabe_name, CAST(AVG(mercury) AS FLOAT4) AS value FROM fish JOIN fish_type ON fish.fish_type_id=fish_type.id\n        GROUP BY fish_type.name, fish_type.anishinaabe_name ORDER BY value;";

#[test]
fn all_valid_lakes_are_accepted() {
    for lake in ["Michigan", "Huron", "Superior", "Store"] {
        assert!(is_valid_lake(lake));
        assert!(sql(min_and_max(&query(Some(lake), "protein"))).is_some());
    }
}

#[test]
fn all_valid_attrs_are_accepted() {
    for attr in ["protein", "pcb", "mercury", "omega_3_ratio"] {
        assert!(is_valid_attr(attr));
        assert!(sql(min_and_max(&query(Some("Michigan"), attr))).is_some());
        assert!(sql(min_and_max(&query(None, attr))).is_some());
    }
}

#[test]
fn an_unknown_lake_is_refused() {
    for lake in ["Lake", "", "michigan", "Michigan ", "Erie", "Store; DROP TABLE fish"] {
        assert!(!is_valid_lake(lake));
        assert_eq!(sql(min_and_max(&query(Some(lake), "protein"))), None);
    }
    assert_eq!(sql(min_and_max(&query(Some("Lake"), "protien"))), None);
}

#[test]
fn an_unknown_attr_is_refused() {
    for attr in ["attr", "", "Protein", "omega_3", "protein; DROP TABLE fish", "name"] {
        assert!(!is_valid_attr(attr));
        assert_eq!(sql(min_and_max(&query(Some("Michigan"), attr))), None);
        assert_eq!(sql(min_and_max(&query(None, attr))), None);
    }
}

#[test]
fn the_statement_for_a_lake() {
    assert_eq!(sql(min_and_max(&query(Some("Huron"), "pcb"))).unwrap(), FOR_HURON_PCB);
    assert_eq!(get_min_and_max_data("Huron", "pcb").builder.sql(), FOR_HURON_PCB);
}

#[test]
fn the_statement_for_the_averages() {
    assert_eq!(sql(min_and_max(&query(None, "mercury"))).unwrap(), FOR_AVERAGE_MERCURY);
    assert_eq!(get_min_and_max_of_avg_data("mercury").builder.sql(), FOR_AVERAGE_MERCURY);
}

#[test]
fn the_lake_is_bound_and_the_attribute_is_text() {
    let text = get_min_and_max_data("Superior", "omega_3_ratio").builder.sql().to_string();
    assert!(!text.contains("Superior"));
    assert_eq!(text.matches("omega_3_ratio").count(), 6);
    assert_eq!(text.matches('$').count(), 4);
    for placeholder in ["lake=$1)", "fish.lake=$2)", "lake=$3)", "fish.lake=$4)"] {
        assert!(text.contains(placeholder));
    }
}

#[test]
fn the_statement_is_the_one_that_the_builder_makes_by_hand() {
    let mut by_hand: sqlx::QueryBuilder<sqlx::Postgres> =
        sqlx::QueryBuilder::new("SELECT fish_type.name, fish_type.anishinaabe_name, CAST(AVG(");
    by_hand.push("protein");
    by_hand.push(
        ") AS FLOAT4) AS value FROM fish JOIN fish_type ON fish.fish_type_id=fish_type.id
        GROUP BY fish_type.name, fish_type.anishinaabe_name ORDER BY value;",
    );
    assert_eq!(get_min_and_max_of_avg_data("protein").builder.sql(), by_hand.sql());
}

#[test]
fn fishs_does_not_need_a_lake() {
    assert_eq!(fishs(None), "Store");
}

#[test]
fn fishs_uses_store_for_an_unknown_lake() {
    assert_eq!(fishs(Some("Erie")), "Store");
    assert_eq!(fishs(Some("")), "Store");
    assert_eq!(fishs(Some("huron")), "Store");
}

#[test]
fn fishs_keeps_a_known_lake() {
    for lake in ["Store", "Superior", "Huron", "Michigan"] {
        assert_eq!(fishs(Some(lake)), lake);
    }
}

#[test]
fn a_sex_is_shown_by_its_name() {
    assert_eq!(Sex::Female.to_string(), "Female");
    assert_eq!(Sex::Male.to_string(), "Male");
}

#[test]
fn the_flag_picks_the_image() {
    let woodland = FishTypeImageData { image_url: "https://fake_url.com".to_string(), woodland_image_flag: true };
    let photograph = FishTypeImageData { image_url: "https://fake_url.com".to_string(), woodland_image_flag: false };
    assert_eq!(update_fish_type_image(&woodland), ImageColumn::S3WoodlandImage);
    assert_eq!(update_fish_type_image(&photograph), ImageColumn::S3FishImage);
    assert_eq!(ImageColumn::S3WoodlandImage.name(), "s3_woodland_image");
    assert_eq!(ImageColumn::S3FishImage.name(), "s3_fish_image");
}
