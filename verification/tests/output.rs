use phonon_monte_carlo::output::{
    completion_message, decimal_string, output_columns, scattering_point_columns, ColumnType,
    OutputColumn, OutputOptions, PointColumn,
};
use phonon_monte_carlo::postprocessing::split_two_columns;

#[test]
fn minimal_output_has_six_columns() {
    let options = OutputOptions {
        write_absorbed_energy: false,
        write_lost_energy: false,
        calculate_sensor_temperature: false,
        calculate_rise_time: false,
    };
    let names: Vec<&str> = output_columns(&options).iter().map(|c| c.name()).collect();
    assert_eq!(
        names,
        vec!["Source Index", "Source X", "Source Y", "Source Z", "Time Bin Size", "Final Energy Absorbed"]
    );
}

#[test]
fn full_output_has_all_columns_in_order() {
    let options = OutputOptions {
        write_absorbed_energy: true,
        write_lost_energy: true,
        calculate_sensor_temperature: true,
        calculate_rise_time: true,
    };
    let columns = output_columns(&options);
    assert_eq!(columns.len(), 10);
    assert_eq!(columns[6], OutputColumn::EnergyAbsorbed);
    assert_eq!(columns[7], OutputColumn::EnergyLost);
    assert_eq!(columns[8], OutputColumn::SensorTemperature);
    assert_eq!(columns[9], OutputColumn::RiseTime);
    assert_eq!(columns[8].name(), "Sensor Temperature");
    assert_eq!(columns[9].name(), "Rise Time");
}

#[test]
fn optional_columns_follow_options() {
    let options = OutputOptions {
        write_absorbed_energy: false,
        write_lost_energy: true,
        calculate_sensor_temperature: false,
        calculate_rise_time: true,
    };
    let columns = output_columns(&options);
    assert_eq!(columns.len(), 8);
    assert_eq!(columns[6], OutputColumn::EnergyLost);
    assert_eq!(columns[7], OutputColumn::RiseTime);
}

#[test]
fn column_types() {
    assert_eq!(OutputColumn::SourceIndex.column_type(), ColumnType::UInt32);
    assert_eq!(OutputColumn::SourceX.column_type(), ColumnType::Float32);
    assert_eq!(OutputColumn::EnergyAbsorbed.column_type(), ColumnType::Float32PerTimeStep);
    assert_eq!(OutputColumn::SensorTemperature.column_type(), ColumnType::Float32PerTimeStep);
    assert_eq!(OutputColumn::RiseTime.column_type(), ColumnType::Float32);
    assert_eq!(OutputColumn::TimeBinSize.name(), "Time Bin Size");
    assert_eq!(OutputColumn::EnergyLost.name(), "Energy Lost");
}

#[test]
fn scattering_point_file_columns() {
    let names: Vec<&str> = scattering_point_columns(false).iter().map(|c| c.name()).collect();
    assert_eq!(names, vec!["Particle", "X", "Y", "Z", "Time", "Location"]);
    let with_flag = scattering_point_columns(true);
    assert_eq!(with_flag.len(), 7);
    assert_eq!(with_flag[6], PointColumn::IsInside);
    assert_eq!(with_flag[6].name(), "is_inside");
}

#[test]
fn decimal_strings() {
    assert_eq!(decimal_string(0), "0");
    assert_eq!(decimal_string(7), "7");
    assert_eq!(decimal_string(10), "10");
    assert_eq!(decimal_string(1203), "1203");
    assert_eq!(decimal_string(usize::MAX), usize::MAX.to_string());
}

#[test]
fn completion_message_counts_simulated_sources() {
    assert_eq!(completion_message(10, 0, true), "Completed 10 simulations");
    assert_eq!(
        completion_message(10, 3, true),
        "Completed 7 simulations\nWrote zeros for 3 sources that were outside the domain"
    );
    assert_eq!(completion_message(10, 3, false), "");
    assert_eq!(
        completion_message(1, 1, true),
        "Completed 0 simulations\nWrote zeros for 1 sources that were outside the domain"
    );
}

#[test]
fn csv_line_with_two_fields_split() {
    assert_eq!(
        split_two_columns("0.5, 1.25"),
        Some(("0.5".to_string(), " 1.25".to_string()))
    );
    assert_eq!(split_two_columns(","), Some((String::new(), String::new())));
    assert_eq!(split_two_columns("µs,ä"), Some(("µs".to_string(), "ä".to_string())));
}

#[test]
fn csv_line_with_other_field_counts_skipped() {
    assert_eq!(split_two_columns("1.0"), None);
    assert_eq!(split_two_columns(""), None);
    assert_eq!(split_two_columns("1,2,3"), None);
    assert_eq!(split_two_columns(",,"), None);
}

#[test]
fn csv_split_round_trip() {
    let line = "12.5,0.003";
    let (a, b) = split_two_columns(line).unwrap();
    assert_eq!(format!("{},{}", a, b), line);
}
