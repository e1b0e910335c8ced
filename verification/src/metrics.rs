//! The gauge registry that the metrics endpoint renders: an owned value
//! passed to whoever needs it, holding one family per metric name and one
//! sample per label combination. Setting a gauge updates the first matching
//! sample or appends a new one; families keep their insertion order, and the
//! renderer outside the library turns the registry into scrape text.

use vstd::prelude::*;

use crate::model::{FloatBits, Weather, ZoneState};

verus! {

/// The bit pattern of the IEEE-754 double one, the gauge value for a
/// condition that holds.
pub const GAUGE_ON_BITS: u64 = 0x3FF0000000000000;

/// The bit pattern of the IEEE-754 double zero, the gauge value for a
/// condition that does not hold.
pub const GAUGE_OFF_BITS: u64 = 0;

/// One gauge sample: the label values it is keyed by and its current value.
#[derive(Debug, PartialEq)]
pub struct GaugeSample {
    pub label_values: Vec<String>,
    pub value: FloatBits,
}

/// The mathematical value of a [`GaugeSample`].
#[verifier::ext_equal]
pub struct SampleModel {
    pub label_values: Seq<Seq<char>>,
    pub value: FloatBits,
}

/// The views of a sequence of strings.
pub open spec fn names_view(s: Seq<String>) -> Seq<Seq<char>> {
    s.map_values(|x: String| x@)
}

impl View for GaugeSample {
    type V = SampleModel;

    open spec fn view(&self) -> SampleModel {
        SampleModel { label_values: names_view(self.label_values@), value: self.value }
    }
}

/// One metric family: its name, its declared label names, and its samples.
#[derive(Debug, PartialEq)]
pub struct MetricFamily {
    pub name: String,
    pub label_names: Vec<String>,
    pub samples: Vec<GaugeSample>,
}

/// The mathematical value of a [`MetricFamily`].
#[verifier::ext_equal]
pub struct FamilyModel {
    pub name: Seq<char>,
    pub label_names: Seq<Seq<char>>,
    pub samples: Seq<SampleModel>,
}

impl View for MetricFamily {
    type V = FamilyModel;

    open spec fn view(&self) -> FamilyModel {
        FamilyModel {
            name: self.name@,
            label_names: names_view(self.label_names@),
            samples: self.samples@.map_values(|s: GaugeSample| s@),
        }
    }
}

/// The gauge registry, families in insertion order.
#[derive(Debug, PartialEq)]
pub struct MetricsRegistry {
    pub families: Vec<MetricFamily>,
}

impl View for MetricsRegistry {
    type V = Seq<FamilyModel>;

    open spec fn view(&self) -> Seq<FamilyModel> {
        self.families@.map_values(|f: MetricFamily| f@)
    }
}

/// Where a family name stands in a registry: the first index carrying that
/// name, or `-1` when none does.
pub open spec fn spec_family_index(fams: Seq<FamilyModel>, name: Seq<char>) -> int
    decreases fams.len(),
{
    if fams.len() == 0 {
        -1
    } else if fams[0].name == name {
        0
    } else {
        let rest = spec_family_index(fams.drop_first(), name);
        if rest < 0 {
            -1
        } else {
            rest + 1
        }
    }
}

/// Where a label combination stands among samples: the first index carrying
/// exactly those label values, or `-1` when none does.
pub open spec fn spec_sample_index(samples: Seq<SampleModel>, labels: Seq<Seq<char>>) -> int
    decreases samples.len(),
{
    if samples.len() == 0 {
        -1
    } else if samples[0].label_values == labels {
        0
    } else {
        let rest = spec_sample_index(samples.drop_first(), labels);
        if rest < 0 {
            -1
        } else {
            rest + 1
        }
    }
}

/// Setting one sample: the first sample with these labels takes the value;
/// with no such sample, a new one is appended.
pub open spec fn spec_set_sample(
    samples: Seq<SampleModel>,
    labels: Seq<Seq<char>>,
    value: FloatBits,
) -> Seq<SampleModel> {
    let i = spec_sample_index(samples, labels);
    if i < 0 {
        samples.push(SampleModel { label_values: labels, value })
    } else {
        samples.update(i, SampleModel { label_values: labels, value })
    }
}

/// Setting one gauge: the first family with this name has the sample set
/// within it; with no such family, a new family with this one sample is
/// appended.
pub open spec fn spec_set_gauge(
    fams: Seq<FamilyModel>,
    name: Seq<char>,
    label_names: Seq<Seq<char>>,
    labels: Seq<Seq<char>>,
    value: FloatBits,
) -> Seq<FamilyModel> {
    let i = spec_family_index(fams, name);
    if i < 0 {
        fams.push(
            FamilyModel {
                name,
                label_names,
                samples: seq![SampleModel { label_values: labels, value }],
            },
        )
    } else {
        fams.update(
            i,
            FamilyModel {
                name: fams[i].name,
                label_names: fams[i].label_names,
                samples: spec_set_sample(fams[i].samples, labels, value),
            },
        )
    }
}

/// A found family index is in range and carries the name; a negative answer
/// means no family carries it.
proof fn lemma_family_index(fams: Seq<FamilyModel>, name: Seq<char>)
    ensures
        spec_family_index(fams, name) >= 0 ==> spec_family_index(fams, name) < fams.len() && fams[
            spec_family_index(fams, name)
        ].name == name,
        spec_family_index(fams, name) < 0 ==> forall|i: int|
            0 <= i < fams.len() ==> (#[trigger] fams[i]).name != name,
    decreases fams.len(),
{
    if fams.len() > 0 {
        lemma_family_index(fams.drop_first(), name);
        if fams[0].name != name {
            assert forall|i: int|
                0 <= i < fams.len() && spec_family_index(fams, name) < 0 implies (
            #[trigger] fams[i]).name != name by {
                if i > 0 {
                    assert(fams.drop_first()[i - 1] == fams[i]);
                }
            }
        }
    }
}

/// When a name is absent from the first `idx` families and stands at `idx`,
/// that is exactly where the search finds it.
proof fn lemma_family_index_prefix(fams: Seq<FamilyModel>, name: Seq<char>, idx: int)
    requires
        0 <= idx < fams.len(),
        fams[idx].name == name,
        forall|k: int| 0 <= k < idx ==> (#[trigger] fams[k]).name != name,
    ensures
        spec_family_index(fams, name) == idx,
    decreases idx,
{
    if idx == 0 {
    } else {
        assert(fams.drop_first()[idx - 1] == fams[idx]);
        assert forall|k: int| 0 <= k < idx - 1 implies (#[trigger] fams.drop_first()[k]).name
            != name by {
            assert(fams.drop_first()[k] == fams[k + 1]);
        }
        lemma_family_index_prefix(fams.drop_first(), name, idx - 1);
    }
}

/// When a label combination is absent from the first `idx` samples and
/// stands at `idx`, that is exactly where the search finds it.
proof fn lemma_sample_index_prefix(samples: Seq<SampleModel>, labels: Seq<Seq<char>>, idx: int)
    requires
        0 <= idx < samples.len(),
        samples[idx].label_values == labels,
        forall|k: int| 0 <= k < idx ==> (#[trigger] samples[k]).label_values != labels,
    ensures
        spec_sample_index(samples, labels) == idx,
    decreases idx,
{
    if idx == 0 {
    } else {
        assert(samples.drop_first()[idx - 1] == samples[idx]);
        assert forall|k: int|
            0 <= k < idx - 1 implies (#[trigger] samples.drop_first()[k]).label_values != labels by {
            assert(samples.drop_first()[k] == samples[k + 1]);
        }
        lemma_sample_index_prefix(samples.drop_first(), labels, idx - 1);
    }
}

/// A found sample index is in range and carries the labels; a negative
/// answer means no sample carries them.
proof fn lemma_sample_index(samples: Seq<SampleModel>, labels: Seq<Seq<char>>)
    ensures
        spec_sample_index(samples, labels) >= 0 ==> spec_sample_index(samples, labels)
            < samples.len() && samples[spec_sample_index(samples, labels)].label_values == labels,
        spec_sample_index(samples, labels) < 0 ==> forall|i: int|
            0 <= i < samples.len() ==> (#[trigger] samples[i]).label_values != labels,
    decreases samples.len(),
{
    if samples.len() > 0 {
        lemma_sample_index(samples.drop_first(), labels);
        if samples[0].label_values != labels {
            assert forall|i: int|
                0 <= i < samples.len() && spec_sample_index(samples, labels) < 0 implies (
            #[trigger] samples[i]).label_values != labels by {
                if i > 0 {
                    assert(samples.drop_first()[i - 1] == samples[i]);
                }
            }
        }
    }
}

/// Whether two label vectors hold the same strings in the same order.
fn string_vecs_equal(a: &Vec<String>, b: &Vec<String>) -> (r: bool)
    ensures
        r == (names_view(a@) == names_view(b@)),
{
    if a.len() != b.len() {
        proof {
            assert(names_view(a@).len() != names_view(b@).len());
        }
        return false;
    }
    let mut i: usize = 0;
    while i < a.len()
        invariant
            a@.len() == b@.len(),
            i <= a@.len(),
            forall|k: int| 0 <= k < i ==> (#[trigger] a@[k])@ == b@[k]@,
        decreases a@.len() - i,
    {
        if !(a[i] == b[i]) {
            proof {
                assert(names_view(a@)[i as int] != names_view(b@)[i as int]);
            }
            return false;
        }
        i = i + 1;
    }
    proof {
        assert(names_view(a@) =~~= names_view(b@));
    }
    true
}

impl MetricsRegistry {
    /// An empty registry.
    pub fn new() -> (r: MetricsRegistry)
        ensures
            r@ == Seq::<FamilyModel>::empty(),
    {
        let r = MetricsRegistry { families: Vec::new() };
        proof {
            assert(r@ =~~= Seq::<FamilyModel>::empty());
        }
        r
    }

    /// How many families the registry holds.
    pub fn len(&self) -> (n: usize)
        ensures
            n == self@.len(),
    {
        self.families.len()
    }

    /// Sets one gauge: the first sample of the named family carrying these
    /// label values takes the value; a missing sample or family is appended.
    pub fn set_gauge(
        &mut self,
        name: &str,
        label_names: Vec<String>,
        label_values: Vec<String>,
        value: FloatBits,
    )
        ensures
            final(self)@ == spec_set_gauge(
                old(self)@,
                name@,
                names_view(label_names@),
                names_view(label_values@),
                value,
            ),
    {
        proof {
            lemma_family_index(self@, name@);
        }
        let ghost orig = self@;
        let name_key = name.to_owned();
        let n = self.families.len();
        let mut fi: usize = 0;
        while fi < n
            invariant
                n == self.families@.len(),
                fi <= n,
                self@ == orig,
                orig == old(self)@,
                name_key@ == name@,
                forall|k: int| 0 <= k < fi ==> (#[trigger] orig[k]).name != name@,
            decreases n - fi,
        {
            if self.families[fi].name == name_key {
                proof {
                    assert(orig[fi as int].name == name@);
                    lemma_family_index_prefix(orig, name@, fi as int);
                }
                let mut fam = self.families.remove(fi);
                fam.set_sample(label_values, value);
                let ghost updated = fam;
                self.families.insert(fi, fam);
                proof {
                    assert(self@ =~~= orig.update(fi as int, updated@));
                    assert(self@ =~~= spec_set_gauge(
                        orig,
                        name@,
                        names_view(label_names@),
                        names_view(label_values@),
                        value,
                    ));
                }
                return ;
            }
            fi = fi + 1;
        }
        let mut samples: Vec<GaugeSample> = Vec::new();
        samples.push(GaugeSample { label_values, value });
        let fam = MetricFamily { name: name_key, label_names, samples };
        let ghost famv = fam@;
        self.families.push(fam);
        proof {
            assert(famv.samples =~~= seq![
                SampleModel { label_values: names_view(label_values@), value },
            ]);
            assert(self@ =~~= orig.push(famv));
            assert(self@ =~~= spec_set_gauge(
                orig,
                name@,
                names_view(label_names@),
                names_view(label_values@),
                value,
            ));
        }
    }
}

impl MetricFamily {
    /// Sets one sample of this family: the first sample carrying these label
    /// values takes the value; with no such sample, a new one is appended.
    fn set_sample(&mut self, label_values: Vec<String>, value: FloatBits)
        ensures
            final(self).name@ == old(self).name@,
            final(self).label_names@ == old(self).label_names@,
            final(self)@.samples == spec_set_sample(
                old(self)@.samples,
                names_view(label_values@),
                value,
            ),
    {
        proof {
            lemma_sample_index(self@.samples, names_view(label_values@));
        }
        let ghost orig = self@.samples;
        let n = self.samples.len();
        let mut si: usize = 0;
        while si < n
            invariant
                n == self.samples@.len(),
                self@.samples == orig,
                orig == old(self)@.samples,
                si <= n,
                self.name@ == old(self).name@,
                self.label_names@ == old(self).label_names@,
                forall|k: int|
                    0 <= k < si ==> (#[trigger] orig[k]).label_values != names_view(
                        label_values@,
                    ),
            decreases n - si,
        {
            if string_vecs_equal(&self.samples[si].label_values, &label_values) {
                proof {
                    assert(orig[si as int].label_values == names_view(label_values@));
                    lemma_sample_index_prefix(orig, names_view(label_values@), si as int);
                }
                let _ = self.samples.remove(si);
                self.samples.insert(si, GaugeSample { label_values, value });
                proof {
                    assert(self@.samples =~~= orig.update(
                        si as int,
                        SampleModel { label_values: names_view(label_values@), value },
                    ));
                    assert(self@.samples =~~= spec_set_sample(
                        orig,
                        names_view(label_values@),
                        value,
                    ));
                }
                return ;
            }
            si = si + 1;
        }
        self.samples.push(GaugeSample { label_values, value });
        proof {
            assert(self@.samples =~~= orig.push(
                SampleModel { label_values: names_view(label_values@), value },
            ));
            assert(self@.samples =~~= spec_set_sample(orig, names_view(label_values@), value));
        }
    }
}

/// The label names of per-zone gauges carried in one unit.
pub open spec fn spec_zone_type_unit_names() -> Seq<Seq<char>> {
    seq!["zone"@, "type"@, "unit"@]
}

/// The label names of per-zone gauges without a unit.
pub open spec fn spec_zone_type_names() -> Seq<Seq<char>> {
    seq!["zone"@, "type"@]
}

/// The label values of a zone's unit-carrying gauges.
pub open spec fn spec_zone_unit_values(zone_name: Seq<char>) -> Seq<Seq<char>> {
    seq![zone_name, "tado"@, "celsius"@]
}

/// The label values of a zone's unitless gauges.
pub open spec fn spec_zone_type_values(zone_name: Seq<char>) -> Seq<Seq<char>> {
    seq![zone_name, "tado"@]
}

/// The registry after one zone's state is recorded: the target temperature,
/// measured temperature, humidity and heating power each set only when
/// present, and the open-window gauge always set, to one for a detected open
/// window and to zero otherwise.
pub open spec fn spec_set_zone(fams: Seq<FamilyModel>, z: ZoneState) -> Seq<FamilyModel> {
    let r1 = match z.setting.temperature {
        Some(t) => spec_set_gauge(
            fams,
            "tado_setting_temperature_value"@,
            spec_zone_type_unit_names(),
            spec_zone_unit_values(z.name@),
            t.value,
        ),
        None => fams,
    };
    let r2 = spec_set_gauge(
        r1,
        "tado_sensor_window_opened"@,
        spec_zone_type_names(),
        spec_zone_type_values(z.name@),
        FloatBits {
            bits: if z.open_window is Some {
                GAUGE_ON_BITS
            } else {
                GAUGE_OFF_BITS
            },
        },
    );
    let r3 = match z.sensor_data_points.inside_temperature {
        Some(t) => spec_set_gauge(
            r2,
            "tado_sensor_temperature_value"@,
            spec_zone_type_unit_names(),
            spec_zone_unit_values(z.name@),
            t.value,
        ),
        None => r2,
    };
    let r4 = match z.sensor_data_points.humidity {
        Some(h) => spec_set_gauge(
            r3,
            "tado_sensor_humidity_percentage"@,
            spec_zone_type_names(),
            spec_zone_type_values(z.name@),
            h.percentage,
        ),
        None => r3,
    };
    match z.heating_power {
        Some(hp) => spec_set_gauge(
            r4,
            "tado_activity_heating_power_percentage"@,
            spec_zone_type_names(),
            spec_zone_type_values(z.name@),
            hp.percentage,
        ),
        None => r4,
    }
}

/// The registry after every zone of a poll is recorded, in order.
pub open spec fn spec_set_zones(fams: Seq<FamilyModel>, zones: Seq<ZoneState>) -> Seq<FamilyModel>
    decreases zones.len(),
{
    if zones.len() == 0 {
        fams
    } else {
        spec_set_zones(spec_set_zone(fams, zones[0]), zones.drop_first())
    }
}

/// The registry after a weather snapshot is recorded: nothing for an absent
/// snapshot; else the outside temperature in both units and the solar
/// intensity. The outside temperature is recorded first, so a registry fed
/// only weather lists its families in name order.
pub open spec fn spec_set_weather(
    fams: Seq<FamilyModel>,
    weather_response: Option<Weather>,
) -> Seq<FamilyModel> {
    match weather_response {
        None => fams,
        Some(w) => {
            let r1 = spec_set_gauge(
                fams,
                "weather_outside_temperature"@,
                seq!["unit"@],
                seq!["celsius"@],
                w.outside_temperature.celsius,
            );
            let r2 = spec_set_gauge(
                r1,
                "weather_outside_temperature"@,
                seq!["unit"@],
                seq!["fahrenheit"@],
                w.outside_temperature.fahrenheit,
            );
            spec_set_gauge(
                r2,
                "weather_solar_intensity"@,
                Seq::empty(),
                Seq::empty(),
                w.solar_intensity.percentage,
            )
        },
    }
}

/// The `["zone", "type", "unit"]` label names.
fn zone_type_unit_names() -> (v: Vec<String>)
    ensures
        names_view(v@) == spec_zone_type_unit_names(),
{
    let mut v: Vec<String> = Vec::new();
    v.push("zone".to_owned());
    v.push("type".to_owned());
    v.push("unit".to_owned());
    proof {
        assert(names_view(v@) =~~= spec_zone_type_unit_names());
    }
    v
}

/// The `["zone", "type"]` label names.
fn zone_type_names() -> (v: Vec<String>)
    ensures
        names_view(v@) == spec_zone_type_names(),
{
    let mut v: Vec<String> = Vec::new();
    v.push("zone".to_owned());
    v.push("type".to_owned());
    proof {
        assert(names_view(v@) =~~= spec_zone_type_names());
    }
    v
}

/// The label values of a zone's unit-carrying gauges.
fn zone_unit_values(zone_name: &String) -> (v: Vec<String>)
    ensures
        names_view(v@) == spec_zone_unit_values(zone_name@),
{
    let mut v: Vec<String> = Vec::new();
    v.push(zone_name.clone());
    v.push("tado".to_owned());
    v.push("celsius".to_owned());
    proof {
        assert(names_view(v@) =~~= spec_zone_unit_values(zone_name@));
    }
    v
}

/// The label values of a zone's unitless gauges.
fn zone_type_values(zone_name: &String) -> (v: Vec<String>)
    ensures
        names_view(v@) == spec_zone_type_values(zone_name@),
{
    let mut v: Vec<String> = Vec::new();
    v.push(zone_name.clone());
    v.push("tado".to_owned());
    proof {
        assert(names_view(v@) =~~= spec_zone_type_values(zone_name@));
    }
    v
}

/// A single label.
fn one_label(s: &str) -> (v: Vec<String>)
    ensures
        names_view(v@) == seq![s@],
{
    let mut v: Vec<String> = Vec::new();
    v.push(s.to_owned());
    proof {
        assert(names_view(v@) =~~= seq![s@]);
    }
    v
}

/// No labels.
fn no_labels() -> (v: Vec<String>)
    ensures
        names_view(v@) == Seq::<Seq<char>>::empty(),
{
    let v: Vec<String> = Vec::new();
    proof {
        assert(names_view(v@) =~~= Seq::<Seq<char>>::empty());
    }
    v
}

/// Records one zone's state in the registry.
fn set_zone(registry: &mut MetricsRegistry, zone: &ZoneState)
    ensures
        final(registry)@ == spec_set_zone(old(registry)@, *zone),
{
    if let Some(t) = zone.setting.temperature {
        registry.set_gauge(
            "tado_setting_temperature_value",
            zone_type_unit_names(),
            zone_unit_values(&zone.name),
            t.value,
        );
    }
    let window_value = if zone.open_window.is_some() {
        FloatBits { bits: GAUGE_ON_BITS }
    } else {
        FloatBits { bits: GAUGE_OFF_BITS }
    };
    registry.set_gauge(
        "tado_sensor_window_opened",
        zone_type_names(),
        zone_type_values(&zone.name),
        window_value,
    );
    if let Some(t) = zone.sensor_data_points.inside_temperature {
        registry.set_gauge(
            "tado_sensor_temperature_value",
            zone_type_unit_names(),
            zone_unit_values(&zone.name),
            t.value,
        );
    }
    if let Some(h) = zone.sensor_data_points.humidity {
        registry.set_gauge(
            "tado_sensor_humidity_percentage",
            zone_type_names(),
            zone_type_values(&zone.name),
            h.percentage,
        );
    }
    if let Some(hp) = zone.heating_power {
        registry.set_gauge(
            "tado_activity_heating_power_percentage",
            zone_type_names(),
            zone_type_values(&zone.name),
            hp.percentage,
        );
    }
}

/// Records every zone of one poll in the registry, in order.
pub fn set_zones(registry: &mut MetricsRegistry, zones: Vec<ZoneState>)
    ensures
        final(registry)@ == spec_set_zones(old(registry)@, zones@),
{
    proof {
        assert(zones@.skip(0) =~= zones@);
    }
    let mut i: usize = 0;
    while i < zones.len()
        invariant
            i <= zones@.len(),
            spec_set_zones(old(registry)@, zones@) == spec_set_zones(
                registry@,
                zones@.skip(i as int),
            ),
        decreases zones@.len() - i,
    {
        proof {
            assert(zones@.skip(i as int)[0] == zones@[i as int]);
            assert(zones@.skip(i as int).drop_first() =~= zones@.skip(i + 1 as int));
        }
        set_zone(registry, &zones[i]);
        i = i + 1;
    }
    proof {
        assert(zones@.skip(zones@.len() as int) =~= Seq::<ZoneState>::empty());
    }
}

/// Records a weather snapshot in the registry; absence records nothing.
pub fn set_weather(registry: &mut MetricsRegistry, weather_response: Option<Weather>)
    ensures
        final(registry)@ == spec_set_weather(old(registry)@, weather_response),
{
    if let Some(w) = weather_response {
        registry.set_gauge(
            "weather_outside_temperature",
            one_label("unit"),
            one_label("celsius"),
            w.outside_temperature.celsius,
        );
        registry.set_gauge(
            "weather_outside_temperature",
            one_label("unit"),
            one_label("fahrenheit"),
            w.outside_temperature.fahrenheit,
        );
        registry.set_gauge(
            "weather_solar_intensity",
            no_labels(),
            no_labels(),
            w.solar_intensity.percentage,
        );
    }
}

} // verus!
