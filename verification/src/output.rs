//! Layout of the output files and the summary of a run.
//!
//! The main output file has one row per particle source. Its first six columns are
//! always there; the time-resolved columns and the rise time appear as the
//! configuration asks for them. The scattering points file has one row per scattering
//! point of a particle.
use vstd::prelude::*;
use vstd::string::StringExecFns;

verus! {

/// A column of the main output file.
#[derive(Debug, Clone, Copy, PartialEq, Eq, Structural)]
pub enum OutputColumn {
    SourceIndex,
    SourceX,
    SourceY,
    SourceZ,
    TimeBinSize,
    FinalEnergyAbsorbed,
    EnergyAbsorbed,
    EnergyLost,
    SensorTemperature,
    RiseTime,
}

/// Type of the values in a column.
#[derive(Debug, Clone, Copy, PartialEq, Eq, Structural)]
pub enum ColumnType {
    /// An unsigned 32-bit integer.
    UInt32,
    /// A 32-bit float.
    Float32,
    /// A list of 32-bit floats, one per time step.
    Float32PerTimeStep,
}

/// The name of a column of the main output file.
pub open spec fn column_name(column: OutputColumn) -> Seq<char> {
    match column {
        OutputColumn::SourceIndex => "Source Index"@,
        OutputColumn::SourceX => "Source X"@,
        OutputColumn::SourceY => "Source Y"@,
        OutputColumn::SourceZ => "Source Z"@,
        OutputColumn::TimeBinSize => "Time Bin Size"@,
        OutputColumn::FinalEnergyAbsorbed => "Final Energy Absorbed"@,
        OutputColumn::EnergyAbsorbed => "Energy Absorbed"@,
        OutputColumn::EnergyLost => "Energy Lost"@,
        OutputColumn::SensorTemperature => "Sensor Temperature"@,
        OutputColumn::RiseTime => "Rise Time"@,
    }
}

/// The value type of a column of the main output file.
pub open spec fn column_type_of(column: OutputColumn) -> ColumnType {
    match column {
        OutputColumn::SourceIndex => ColumnType::UInt32,
        OutputColumn::EnergyAbsorbed => ColumnType::Float32PerTimeStep,
        OutputColumn::EnergyLost => ColumnType::Float32PerTimeStep,
        OutputColumn::SensorTemperature => ColumnType::Float32PerTimeStep,
        _ => ColumnType::Float32,
    }
}

impl OutputColumn {
    pub fn name(&self) -> (name: &'static str)
        ensures
            name@ == column_name(*self),
    {
        match self {
            OutputColumn::SourceIndex => "Source Index",
            OutputColumn::SourceX => "Source X",
            OutputColumn::SourceY => "Source Y",
            OutputColumn::SourceZ => "Source Z",
            OutputColumn::TimeBinSize => "Time Bin Size",
            OutputColumn::FinalEnergyAbsorbed => "Final Energy Absorbed",
            OutputColumn::EnergyAbsorbed => "Energy Absorbed",
            OutputColumn::EnergyLost => "Energy Lost",
            OutputColumn::SensorTemperature => "Sensor Temperature",
            OutputColumn::RiseTime => "Rise Time",
        }
    }

    pub fn column_type(&self) -> (t: ColumnType)
        ensures
            t == column_type_of(*self),
    {
        match self {
            OutputColumn::SourceIndex => ColumnType::UInt32,
            OutputColumn::EnergyAbsorbed => ColumnType::Float32PerTimeStep,
            OutputColumn::EnergyLost => ColumnType::Float32PerTimeStep,
            OutputColumn::SensorTemperature => ColumnType::Float32PerTimeStep,
            _ => ColumnType::Float32,
        }
    }
}

/// The choices of the configuration that decide the columns of the main output file.
#[derive(Debug, Clone, Copy, PartialEq, Eq, Structural)]
pub struct OutputOptions {
    pub write_absorbed_energy: bool,
    pub write_lost_energy: bool,
    pub calculate_sensor_temperature: bool,
    pub calculate_rise_time: bool,
}

/// `column` when `present`, nothing otherwise.
pub open spec fn optional_column(present: bool, column: OutputColumn) -> Seq<OutputColumn> {
    if present {
        seq![column]
    } else {
        seq![]
    }
}

/// The columns of the main output file, in order.
pub open spec fn output_layout(options: OutputOptions) -> Seq<OutputColumn> {
    seq![
        OutputColumn::SourceIndex,
        OutputColumn::SourceX,
        OutputColumn::SourceY,
        OutputColumn::SourceZ,
        OutputColumn::TimeBinSize,
        OutputColumn::FinalEnergyAbsorbed,
    ] + optional_column(options.write_absorbed_energy, OutputColumn::EnergyAbsorbed)
        + optional_column(options.write_lost_energy, OutputColumn::EnergyLost)
        + optional_column(options.calculate_sensor_temperature, OutputColumn::SensorTemperature)
        + optional_column(options.calculate_rise_time, OutputColumn::RiseTime)
}

/// The main output file starts with the six fixed columns, then has each optional column
/// exactly when its option is set, in the order energy absorbed, energy lost, sensor
/// temperature, rise time, and no column twice.
pub open spec fn layout_follows_options(options: OutputOptions, columns: Seq<OutputColumn>) -> bool {
    let flags = (if options.write_absorbed_energy { 1int } else { 0 }) + (if options.write_lost_energy {
        1int
    } else {
        0
    }) + (if options.calculate_sensor_temperature { 1int } else { 0 }) + (
    if options.calculate_rise_time {
        1int
    } else {
        0
    });
    &&& columns.len() == 6 + flags
    &&& columns[0] == OutputColumn::SourceIndex
    &&& columns[1] == OutputColumn::SourceX
    &&& columns[2] == OutputColumn::SourceY
    &&& columns[3] == OutputColumn::SourceZ
    &&& columns[4] == OutputColumn::TimeBinSize
    &&& columns[5] == OutputColumn::FinalEnergyAbsorbed
    &&& columns.contains(OutputColumn::EnergyAbsorbed) <==> options.write_absorbed_energy
    &&& columns.contains(OutputColumn::EnergyLost) <==> options.write_lost_energy
    &&& columns.contains(OutputColumn::SensorTemperature) <==> options.calculate_sensor_temperature
    &&& columns.contains(OutputColumn::RiseTime) <==> options.calculate_rise_time
    &&& columns.no_duplicates()
    &&& forall|k: int, l: int|
        6 <= k < l < columns.len() ==> column_rank(columns[k]) < column_rank(columns[l])
}

/// Position of a column in the order of the optional columns.
pub open spec fn column_rank(column: OutputColumn) -> int {
    match column {
        OutputColumn::EnergyAbsorbed => 1,
        OutputColumn::EnergyLost => 2,
        OutputColumn::SensorTemperature => 3,
        OutputColumn::RiseTime => 4,
        _ => 0,
    }
}

/// The layout of the main output file follows the options as documented.
#[verifier::rlimit(60)]
pub proof fn lemma_output_layout_follows_options(options: OutputOptions)
    ensures
        layout_follows_options(options, output_layout(options)),
{
    let c = output_layout(options);
    let a = optional_column(options.write_absorbed_energy, OutputColumn::EnergyAbsorbed);
    let b = optional_column(options.write_lost_energy, OutputColumn::EnergyLost);
    let t = optional_column(options.calculate_sensor_temperature, OutputColumn::SensorTemperature);
    let r = optional_column(options.calculate_rise_time, OutputColumn::RiseTime);
    let tail = a + b + t + r;
    let fixed = seq![
        OutputColumn::SourceIndex,
        OutputColumn::SourceX,
        OutputColumn::SourceY,
        OutputColumn::SourceZ,
        OutputColumn::TimeBinSize,
        OutputColumn::FinalEnergyAbsorbed,
    ];
    assert(c =~= fixed + tail);
    assert forall|k: int| 0 <= k < tail.len() implies column_rank(#[trigger] tail[k]) > 0 by {}
    assert forall|k: int, l: int| 0 <= k < l < tail.len() implies column_rank(tail[k])
        < column_rank(tail[l]) by {}
    assert forall|k: int| 0 <= k < c.len() implies (k < 6 <==> column_rank(#[trigger] c[k]) == 0) by {
        if k >= 6 {
            assert(c[k] == tail[k - 6]);
        }
    }
    assert forall|k: int, l: int| 6 <= k < l < c.len() implies column_rank(c[k]) < column_rank(
        c[l],
    ) by {
        assert(c[k] == tail[k - 6]);
        assert(c[l] == tail[l - 6]);
    }
    assert(c.no_duplicates()) by {
        assert forall|k: int, l: int| 0 <= k < c.len() && 0 <= l < c.len() && k != l implies c[k]
            != c[l] by {
            if k < 6 && l < 6 {
            } else if k >= 6 && l >= 6 {
                assert(c[k] == tail[k - 6]);
                assert(c[l] == tail[l - 6]);
            } else {
                assert(column_rank(c[k]) != column_rank(c[l]));
            }
        }
    }
    if options.write_absorbed_energy {
        assert(c[6] == OutputColumn::EnergyAbsorbed);
    }
    if options.write_lost_energy {
        assert(c[6 + a.len() as int] == OutputColumn::EnergyLost);
    }
    if options.calculate_sensor_temperature {
        assert(c[6 + a.len() as int + b.len() as int] == OutputColumn::SensorTemperature);
    }
    if options.calculate_rise_time {
        assert(c[6 + a.len() as int + b.len() as int + t.len() as int] == OutputColumn::RiseTime);
    }
    assert(c.contains(OutputColumn::EnergyAbsorbed) ==> options.write_absorbed_energy) by {
        if c.contains(OutputColumn::EnergyAbsorbed) {
            let k = choose|k: int| 0 <= k < c.len() && c[k] == OutputColumn::EnergyAbsorbed;
            assert(c[k] == tail[k - 6]);
        }
    }
    assert(c.contains(OutputColumn::EnergyLost) ==> options.write_lost_energy) by {
        if c.contains(OutputColumn::EnergyLost) {
            let k = choose|k: int| 0 <= k < c.len() && c[k] == OutputColumn::EnergyLost;
            assert(c[k] == tail[k - 6]);
        }
    }
    assert(c.contains(OutputColumn::SensorTemperature) ==> options.calculate_sensor_temperature)
        by {
        if c.contains(OutputColumn::SensorTemperature) {
            let k = choose|k: int| 0 <= k < c.len() && c[k] == OutputColumn::SensorTemperature;
            assert(c[k] == tail[k - 6]);
        }
    }
    assert(c.contains(OutputColumn::RiseTime) ==> options.calculate_rise_time) by {
        if c.contains(OutputColumn::RiseTime) {
            let k = choose|k: int| 0 <= k < c.len() && c[k] == OutputColumn::RiseTime;
            assert(c[k] == tail[k - 6]);
        }
    }
}

/// The columns of the main output file for the given options, in the order in which
/// both the schema and every row list them.
pub fn output_columns(options: &OutputOptions) -> (columns: Vec<OutputColumn>)
    ensures
        columns@ == output_layout(*options),
        layout_follows_options(*options, columns@),
{
    let mut columns: Vec<OutputColumn> = Vec::new();
    columns.push(OutputColumn::SourceIndex);
    columns.push(OutputColumn::SourceX);
    columns.push(OutputColumn::SourceY);
    columns.push(OutputColumn::SourceZ);
    columns.push(OutputColumn::TimeBinSize);
    columns.push(OutputColumn::FinalEnergyAbsorbed);
    let ghost fixed = columns@;
    if options.write_absorbed_energy {
        columns.push(OutputColumn::EnergyAbsorbed);
    }
    let ghost with_absorbed = columns@;
    if options.write_lost_energy {
        columns.push(OutputColumn::EnergyLost);
    }
    let ghost with_lost = columns@;
    if options.calculate_sensor_temperature {
        columns.push(OutputColumn::SensorTemperature);
    }
    let ghost with_temperature = columns@;
    if options.calculate_rise_time {
        columns.push(OutputColumn::RiseTime);
    }
    proof {
        assert(with_absorbed =~= fixed + optional_column(
            options.write_absorbed_energy,
            OutputColumn::EnergyAbsorbed,
        ));
        assert(with_lost =~= with_absorbed + optional_column(
            options.write_lost_energy,
            OutputColumn::EnergyLost,
        ));
        assert(with_temperature =~= with_lost + optional_column(
            options.calculate_sensor_temperature,
            OutputColumn::SensorTemperature,
        ));
        assert(columns@ =~= with_temperature + optional_column(
            options.calculate_rise_time,
            OutputColumn::RiseTime,
        ));
        lemma_output_layout_follows_options(*options);
        assert(columns@ == output_layout(*options));
        assert(layout_follows_options(*options, columns@));
    }
    columns
}

/// A column of the scattering points file.
#[derive(Debug, Clone, Copy, PartialEq, Eq, Structural)]
pub enum PointColumn {
    Particle,
    X,
    Y,
    Z,
    Time,
    Location,
    IsInside,
}

/// The name of a column of the scattering points file.
pub open spec fn point_column_name(column: PointColumn) -> Seq<char> {
    match column {
        PointColumn::Particle => "Particle"@,
        PointColumn::X => "X"@,
        PointColumn::Y => "Y"@,
        PointColumn::Z => "Z"@,
        PointColumn::Time => "Time"@,
        PointColumn::Location => "Location"@,
        PointColumn::IsInside => "is_inside"@,
    }
}

impl PointColumn {
    pub fn name(&self) -> (name: &'static str)
        ensures
            name@ == point_column_name(*self),
    {
        match self {
            PointColumn::Particle => "Particle",
            PointColumn::X => "X",
            PointColumn::Y => "Y",
            PointColumn::Z => "Z",
            PointColumn::Time => "Time",
            PointColumn::Location => "Location",
            PointColumn::IsInside => "is_inside",
        }
    }
}

/// The columns of the scattering points file: particle, position, time and location,
/// then the inside-the-domain flag where that flag is recorded.
pub open spec fn point_layout(with_inside_flag: bool) -> Seq<PointColumn> {
    seq![
        PointColumn::Particle,
        PointColumn::X,
        PointColumn::Y,
        PointColumn::Z,
        PointColumn::Time,
        PointColumn::Location,
    ] + if with_inside_flag {
        seq![PointColumn::IsInside]
    } else {
        seq![]
    }
}

/// The columns of the scattering points file, in order.
pub fn scattering_point_columns(with_inside_flag: bool) -> (columns: Vec<PointColumn>)
    ensures
        columns@ == point_layout(with_inside_flag),
{
    let mut columns: Vec<PointColumn> = Vec::new();
    columns.push(PointColumn::Particle);
    columns.push(PointColumn::X);
    columns.push(PointColumn::Y);
    columns.push(PointColumn::Z);
    columns.push(PointColumn::Time);
    columns.push(PointColumn::Location);
    if with_inside_flag {
        columns.push(PointColumn::IsInside);
    }
    assert(columns@ =~= point_layout(with_inside_flag));
    columns
}

/// The decimal digit `d` as a character.
pub open spec fn digit_char(d: nat) -> char {
    if d == 0 {
        '0'
    } else if d == 1 {
        '1'
    } else if d == 2 {
        '2'
    } else if d == 3 {
        '3'
    } else if d == 4 {
        '4'
    } else if d == 5 {
        '5'
    } else if d == 6 {
        '6'
    } else if d == 7 {
        '7'
    } else if d == 8 {
        '8'
    } else {
        '9'
    }
}

/// The decimal representation of `n`, without sign or leading zeros.
pub open spec fn decimal(n: nat) -> Seq<char>
    decreases n,
{
    if n < 10 {
        seq![digit_char(n)]
    } else {
        decimal(n / 10).push(digit_char(n % 10))
    }
}

/// The value of a decimal digit character, 10 for any other character.
pub open spec fn digit_value(c: char) -> nat {
    if '0' <= c && c <= '9' {
        (c as nat - '0' as nat) as nat
    } else {
        10
    }
}

/// The number that a string of decimal digits denotes, most significant digit first.
pub open spec fn denoted(s: Seq<char>) -> nat
    decreases s.len(),
{
    if s.len() == 0 {
        0
    } else {
        denoted(s.drop_last()) * 10 + digit_value(s.last())
    }
}

proof fn lemma_digit_char_value(d: nat)
    requires
        d < 10,
    ensures
        digit_value(digit_char(d)) == d,
{
}

/// The decimal representation of `n` consists of decimal digits, has no leading zero
/// unless `n` is 0, and denotes `n`.
pub proof fn lemma_decimal_denotes(n: nat)
    ensures
        decimal(n).len() > 0,
        forall|i: int| 0 <= i < decimal(n).len() ==> digit_value(#[trigger] decimal(n)[i]) < 10,
        decimal(n)[0] == '0' ==> n == 0,
        denoted(decimal(n)) == n,
    decreases n,
{
    if n < 10 {
        lemma_digit_char_value(n);
        assert(decimal(n)[0] == digit_char(n));
        assert(digit_value('0') == 0);
        let one = seq![digit_char(n)];
        assert(one.drop_last() =~= Seq::<char>::empty());
        assert(denoted(one) == denoted(one.drop_last()) * 10 + digit_value(one.last()));
        assert(decimal(n) == one);
    } else {
        let q = n / 10;
        let r = n % 10;
        lemma_decimal_denotes(q);
        let s = decimal(n);
        lemma_digit_char_value(r);
        assert(s == decimal(q).push(digit_char(r)));
        assert(s.drop_last() =~= decimal(q));
        assert(q * 10 + r == n) by (nonlinear_arith)
            requires
                q == n / 10,
                r == n % 10,
        ;
        assert(q > 0) by (nonlinear_arith)
            requires
                q == n / 10,
                n >= 10,
        ;
        assert forall|i: int| 0 <= i < s.len() implies digit_value(#[trigger] s[i]) < 10 by {
            if i < s.len() - 1 {
                assert(s[i] == decimal(q)[i]);
            }
        }
        assert(s[0] == decimal(q)[0]);
        assert(decimal(q)[0] != '0');
        assert(s.last() == digit_char(r));
        assert(denoted(s) == denoted(s.drop_last()) * 10 + digit_value(s.last()));
        assert(denoted(s) == q * 10 + r);
    }
}

fn digit_str(d: usize) -> (s: &'static str)
    requires
        d < 10,
    ensures
        s@ == seq![digit_char(d as nat)],
{
    proof {
        reveal_strlit("0");
        reveal_strlit("1");
        reveal_strlit("2");
        reveal_strlit("3");
        reveal_strlit("4");
        reveal_strlit("5");
        reveal_strlit("6");
        reveal_strlit("7");
        reveal_strlit("8");
        reveal_strlit("9");
    }
    let s = if d == 0 {
        "0"
    } else if d == 1 {
        "1"
    } else if d == 2 {
        "2"
    } else if d == 3 {
        "3"
    } else if d == 4 {
        "4"
    } else if d == 5 {
        "5"
    } else if d == 6 {
        "6"
    } else if d == 7 {
        "7"
    } else if d == 8 {
        "8"
    } else {
        "9"
    };
    assert(s@ =~= seq![digit_char(d as nat)]);
    s
}

fn append_decimal(s: &mut String, n: usize)
    ensures
        final(s)@ == old(s)@ + decimal(n as nat),
    decreases n,
{
    if n >= 10 {
        append_decimal(s, n / 10);
    }
    let d = digit_str(n % 10);
    s.append(d);
    assert(s@ =~= old(s)@ + decimal(n as nat));
}

/// `n` written in decimal.
pub fn decimal_string(n: usize) -> (text: String)
    ensures
        text@ == decimal(n as nat),
        denoted(text@) == n,
        text@.len() > 0,
        forall|i: int| 0 <= i < text@.len() ==> digit_value(#[trigger] text@[i]) < 10,
        text@[0] == '0' ==> n == 0,
{
    proof {
        lemma_decimal_denotes(n as nat);
    }
    let mut text = String::new();
    append_decimal(&mut text, n);
    assert(text@ =~= decimal(n as nat));
    text
}

/// The report of a run over `num_sources` particle sources of which `num_ignored` lay
/// outside the domain: empty when the run is quiet.
pub open spec fn completion_report(num_sources: nat, num_ignored: nat, verbose: bool) -> Seq<
    char,
> {
    if !verbose {
        seq![]
    } else {
        "Completed "@ + decimal((num_sources - num_ignored) as nat) + " simulations"@ + if num_ignored
            > 0 {
            "\nWrote zeros for "@ + decimal(num_ignored) + " sources that were outside the domain"@
        } else {
            seq![]
        }
    }
}

/// The text that a run returns: how many sources were simulated and, if any were
/// outside the domain, for how many sources zeros were written.
pub fn completion_message(num_sources: usize, num_ignored: usize, verbose: bool) -> (text: String)
    requires
        num_ignored <= num_sources,
    ensures
        text@ == completion_report(num_sources as nat, num_ignored as nat, verbose),
{
    let mut text = String::new();
    if verbose {
        text.append("Completed ");
        append_decimal(&mut text, num_sources - num_ignored);
        text.append(" simulations");
        if num_ignored > 0 {
            text.append("\nWrote zeros for ");
            append_decimal(&mut text, num_ignored);
            text.append(" sources that were outside the domain");
        }
    }
    assert(text@ =~= completion_report(num_sources as nat, num_ignored as nat, verbose));
    text
}

} // verus!
