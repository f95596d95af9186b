//! The catalog of supported laptop models.
use crate::feature::{
    is_feature_tag, is_prefix, starts_with, validate_features, BATTERYCARE, FAN, KBDBACKLIGHT, LIDLOGO,
    LIGHTSALWAYSON, PERF,
};
use vstd::prelude::*;

verus! {

/// A supported model: its USB product id, its name, the prefix of the
/// platform model id that identifies it, and the capabilities it has.
#[derive(Clone, Copy, Debug)]
pub struct Descriptor {
    pub pid: u16,
    pub name: &'static str,
    pub model_number_prefix: &'static str,
    pub features: &'static [&'static str],
}

/// A descriptor as the contracts see it: strings as character sequences.
pub struct DescriptorView {
    pub pid: u16,
    pub name: Seq<char>,
    pub model_number_prefix: Seq<char>,
    pub features: Seq<Seq<char>>,
}

impl View for Descriptor {
    type V = DescriptorView;

    open spec fn view(&self) -> DescriptorView {
        DescriptorView {
            pid: self.pid,
            name: self.name@,
            model_number_prefix: self.model_number_prefix@,
            features: self.features@.map_values(|t: &'static str| t@),
        }
    }
}

/// Capabilities of models with every feature.
pub const FULL_FEATURES: [&'static str; 6] = [BATTERYCARE, FAN, KBDBACKLIGHT, LIDLOGO, LIGHTSALWAYSON, PERF];

/// Capabilities of models without a lid logo.
pub const NO_LOGO_FEATURES: [&'static str; 5] = [BATTERYCARE, FAN, KBDBACKLIGHT, LIGHTSALWAYSON, PERF];

pub open spec fn full_features() -> Seq<Seq<char>> {
    seq![BATTERYCARE@, FAN@, KBDBACKLIGHT@, LIDLOGO@, LIGHTSALWAYSON@, PERF@]
}

pub open spec fn no_logo_features() -> Seq<Seq<char>> {
    seq![BATTERYCARE@, FAN@, KBDBACKLIGHT@, LIGHTSALWAYSON@, PERF@]
}

/// The supported models, in lookup order.
pub open spec fn catalog() -> Seq<DescriptorView> {
    seq![
        DescriptorView {
            pid: 0x029f,
            name: "Razer Blade 16 (2023)"@,
            model_number_prefix: "RZ09-0483T"@,
            features: full_features(),
        },
        DescriptorView {
            pid: 0x029d,
            name: "Razer Blade 14 (2023)"@,
            model_number_prefix: "RZ09-0482X"@,
            features: no_logo_features(),
        },
        DescriptorView {
            pid: 0x028a,
            name: "Razer Blade 15 (2022)"@,
            model_number_prefix: "RZ09-0421N"@,
            features: full_features(),
        },
        DescriptorView {
            pid: 0x028c,
            name: "Razer Blade 14 (2022)"@,
            model_number_prefix: "RZ09-0427N"@,
            features: no_logo_features(),
        },
        DescriptorView {
            pid: 0x02b6,
            name: "Razer Blade 16 (2025)"@,
            model_number_prefix: "RZ09-0528"@,
            features: no_logo_features(),
        },
    ]
}

/// The supported models, in lookup order.
pub fn supported() -> (r: Vec<Descriptor>)
    ensures
        r@.len() == catalog().len(),
        forall|i: int| 0 <= i < r@.len() ==> #[trigger] r@[i]@ == catalog()[i],
{
    let full: &'static [&'static str] = FULL_FEATURES.as_slice();
    let no_logo: &'static [&'static str] = NO_LOGO_FEATURES.as_slice();
    assert(full@.map_values(|t: &'static str| t@) =~= full_features());
    assert(no_logo@.map_values(|t: &'static str| t@) =~= no_logo_features());
    proof {
        lemma_catalog_features_valid();
        assert forall|i: int| 0 <= i < full@.len() implies is_feature_tag(#[trigger] full@[i]@) by {
            assert(full@[i]@ == catalog()[0].features[i]);
        }
        assert forall|i: int| 0 <= i < no_logo@.len() implies is_feature_tag(
            #[trigger] no_logo@[i]@,
        ) by {
            assert(no_logo@[i]@ == catalog()[1].features[i]);
        }
    }
    validate_features(full);
    validate_features(no_logo);
    vec![
        Descriptor {
            pid: 0x029f,
            name: "Razer Blade 16 (2023)",
            model_number_prefix: "RZ09-0483T",
            features: full,
        },
        Descriptor {
            pid: 0x029d,
            name: "Razer Blade 14 (2023)",
            model_number_prefix: "RZ09-0482X",
            features: no_logo,
        },
        Descriptor {
            pid: 0x028a,
            name: "Razer Blade 15 (2022)",
            model_number_prefix: "RZ09-0421N",
            features: full,
        },
        Descriptor {
            pid: 0x028c,
            name: "Razer Blade 14 (2022)",
            model_number_prefix: "RZ09-0427N",
            features: no_logo,
        },
        Descriptor {
            pid: 0x02b6,
            name: "Razer Blade 16 (2025)",
            model_number_prefix: "RZ09-0528",
            features: no_logo,
        },
    ]
}

/// Every capability tag of every catalog entry is one of the closed set.
pub proof fn lemma_catalog_features_valid()
    ensures
        forall|i: int, j: int|
            0 <= i < catalog().len() && 0 <= j < catalog()[i].features.len() ==> is_feature_tag(
                #[trigger] catalog()[i].features[j],
            ),
{
    assert forall|i: int, j: int|
        0 <= i < catalog().len() && 0 <= j < catalog()[i].features.len() implies is_feature_tag(
        #[trigger] catalog()[i].features[j],
    ) by {
        assert(full_features()[j] == full_features()[j]);
        if j < 5 {
            assert(no_logo_features()[j] == no_logo_features()[j]);
        }
    }
}

/// The entry for a platform model id: the first whose prefix begins it.
pub open spec fn model_lookup(model: Seq<char>, r: Option<Descriptor>) -> bool {
    match r {
        Some(d) => exists|i: int|
            0 <= i < catalog().len() && d@ == catalog()[i] && is_prefix(
                catalog()[i].model_number_prefix,
                model,
            ) && forall|j: int|
                0 <= j < i ==> !is_prefix(#[trigger] catalog()[j].model_number_prefix, model),
        None => forall|j: int|
            0 <= j < catalog().len() ==> !is_prefix(
                #[trigger] catalog()[j].model_number_prefix,
                model,
            ),
    }
}

/// The entry for a product id: the first with that id.
pub open spec fn pid_lookup(pid: u16, r: Option<Descriptor>) -> bool {
    match r {
        Some(d) => exists|i: int|
            0 <= i < catalog().len() && d@ == catalog()[i] && catalog()[i].pid == pid && forall|
                j: int,
            |
                0 <= j < i ==> #[trigger] catalog()[j].pid != pid,
        None => forall|j: int| 0 <= j < catalog().len() ==> #[trigger] catalog()[j].pid != pid,
    }
}

/// Finds the first supported model whose prefix begins `model`.
pub fn find_by_model(model: &str) -> (r: Option<Descriptor>)
    ensures
        model_lookup(model@, r),
{
    let all = supported();
    let mut i: usize = 0;
    while i < all.len()
        invariant
            all@.len() == catalog().len(),
            forall|k: int| 0 <= k < all@.len() ==> #[trigger] all@[k]@ == catalog()[k],
            i <= all@.len(),
            forall|j: int|
                0 <= j < i ==> !is_prefix(#[trigger] catalog()[j].model_number_prefix, model@),
        decreases all@.len() - i,
    {
        if starts_with(model, all[i].model_number_prefix) {
            assert(all@[i as int]@ == catalog()[i as int]);
            return Some(all[i]);
        }
        assert(all@[i as int]@ == catalog()[i as int]);
        i = i + 1;
    }
    None
}

/// Finds the first supported model with product id `pid`.
pub fn find_by_pid(pid: u16) -> (r: Option<Descriptor>)
    ensures
        pid_lookup(pid, r),
{
    let all = supported();
    let mut i: usize = 0;
    while i < all.len()
        invariant
            all@.len() == catalog().len(),
            forall|k: int| 0 <= k < all@.len() ==> #[trigger] all@[k]@ == catalog()[k],
            i <= all@.len(),
            forall|j: int| 0 <= j < i ==> #[trigger] catalog()[j].pid != pid,
        decreases all@.len() - i,
    {
        assert(all@[i as int]@ == catalog()[i as int]);
        if all[i].pid == pid {
            return Some(all[i]);
        }
        i = i + 1;
    }
    None
}

} // verus!
