//! Unavailable iOS simulator devices.
use crate::cleaner::{kind_category, kind_id, kind_name, kind_risk, Cleaner, CleanerKind};
use crate::model::{Category, RiskLevel};
use crate::cleaner::{method_view, non_empty_target, MethodView};
use crate::model::{CleanMethod, CleanTarget};
use crate::paths::{path_join, path_join_spec};
use crate::text::push_str;
use vstd::prelude::*;

verus! {

broadcast use vstd::string::group_string_axioms;

pub struct SimulatorUnavailableCleaner;

impl Cleaner for SimulatorUnavailableCleaner {
    open spec fn id_spec(&self) -> Seq<char> {
        kind_id(CleanerKind::SimulatorUnavailable)
    }

    open spec fn display_name_spec(&self) -> Seq<char> {
        kind_name(CleanerKind::SimulatorUnavailable)
    }

    open spec fn category_spec(&self) -> Category {
        kind_category(CleanerKind::SimulatorUnavailable)
    }

    open spec fn risk_spec(&self) -> RiskLevel {
        kind_risk(CleanerKind::SimulatorUnavailable)
    }

    fn id(&self) -> (r: &'static str) {
        CleanerKind::SimulatorUnavailable.id()
    }

    fn display_name(&self) -> (r: &'static str) {
        CleanerKind::SimulatorUnavailable.display_name()
    }

    fn category(&self) -> (r: Category) {
        CleanerKind::SimulatorUnavailable.category()
    }

    fn risk_level(&self) -> (r: RiskLevel) {
        CleanerKind::SimulatorUnavailable.risk_level()
    }
}


/// A simulator entry of `xcrun simctl list devices --json`.
#[derive(Clone, Debug)]
pub struct SimDevice {
    pub name: Option<String>,
    pub udid: Option<String>,
    pub is_available: Option<bool>,
}

/// A device the simulator runtime reports as unavailable.
#[derive(Clone, Debug)]
pub struct UnavailableDevice {
    pub name: String,
    pub udid: String,
}

/// The devices explicitly marked unavailable that have a name and an id.
pub open spec fn unavailable_spec(s: Seq<SimDevice>) -> Seq<(Seq<char>, Seq<char>)>
    decreases s.len(),
{
    if s.len() == 0 {
        Seq::empty()
    } else {
        let rest = unavailable_spec(s.drop_last());
        let d = s.last();
        if d.is_available == Some(false) && d.name is Some && d.udid is Some {
            rest.push((d.name.unwrap()@, d.udid.unwrap()@))
        } else {
            rest
        }
    }
}

impl SimulatorUnavailableCleaner {
    pub fn unavailable_devices(devices: &Vec<SimDevice>) -> (out: Vec<UnavailableDevice>)
        ensures
            out@.map_values(|d: UnavailableDevice| (d.name@, d.udid@)) == unavailable_spec(devices@),
    {
        let mut out: Vec<UnavailableDevice> = Vec::new();
        for i in 0..devices.len()
            invariant
                out@.map_values(|d: UnavailableDevice| (d.name@, d.udid@)) =~= unavailable_spec(
                    devices@.take(i as int),
                ),
        {
            assert(devices@.take(i + 1).drop_last() =~= devices@.take(i as int));
            let d = &devices[i];
            if d.is_available == Some(false) {
                match (&d.name, &d.udid) {
                    (Some(n), Some(u)) => {
                        let ghost before = out@;
                        let x = UnavailableDevice { name: n.clone(), udid: u.clone() };
                        out.push(x);
                        assert(out@.map_values(|d: UnavailableDevice| (d.name@, d.udid@)) =~= before.map_values(
                            |d: UnavailableDevice| (d.name@, d.udid@),
                        ).push((x.name@, x.udid@)));
                    },
                    _ => {},
                }
            }
        }
        assert(devices@.take(devices.len() as int) =~= devices@);
        out
    }

    /// Where simulator devices live.
    pub fn devices_path(home: &str) -> (p: String)
        ensures
            p@ == path_join_spec(home@, "Library/Developer/CoreSimulator/Devices"@),
    {
        path_join(home, "Library/Developer/CoreSimulator/Devices")
    }

    /// The target of an unavailable device: its data directory, deleted with
    /// `xcrun simctl delete`; none when it could not be measured or is empty.
    pub fn device_target(device: UnavailableDevice, devices_root: &str, size_bytes: Option<u64>) -> (t: Option<CleanTarget>)
        ensures
            match size_bytes {
                Some(n) if n > 0 => match t {
                    Some(x) => x.path@ == path_join_spec(devices_root@, device.udid@) && x.size_bytes
                        == n && x.description@ == "Unavailable simulator: "@ + device.name@ + " ("@
                        + device.udid@ + ")"@ && method_view(x.method) == MethodView::Command(
                        seq!["xcrun"@, "simctl"@, "delete"@, device.udid@],
                    ),
                    None => false,
                },
                _ => t is None,
            },
    {
        let path = path_join(devices_root, device.udid.as_str());
        let mut description = "Unavailable simulator: ".to_string();
        push_str(&mut description, device.name.as_str());
        push_str(&mut description, " (");
        push_str(&mut description, device.udid.as_str());
        push_str(&mut description, ")");
        let mut args: Vec<String> = Vec::new();
        args.push("xcrun".to_string());
        args.push("simctl".to_string());
        args.push("delete".to_string());
        let ghost u = device.udid@;
        args.push(device.udid);
        assert(args.deep_view() =~= seq!["xcrun"@, "simctl"@, "delete"@, u]);
        non_empty_target(path, description, CleanMethod::RunCommand(args), size_bytes)
    }
}

} // verus!
