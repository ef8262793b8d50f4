//! What the program decides and says before its interface starts.

use vstd::prelude::*;

use crate::app::{App, AppView};
use crate::protocol::{DeviceModel, DeviceState};
use crate::text;

verus! {

/// A device that is connected.
pub struct DeviceInfo {
    pub path: String,
    pub model: DeviceModel,
    pub serial: String,
}

/// The line on one device.
pub open spec fn device_line(device: DeviceInfo) -> Seq<char> {
    "  "@ + device.path@ + " | "@ + device.model.name() + " | S/N: "@ + device.serial@
}

/// The lines that list the devices. `linux` says whether access is a matter of
/// a udev rule.
pub open spec fn device_lines(devices: Seq<DeviceInfo>, linux: bool) -> Seq<Seq<char>> {
    if devices.len() == 0 {
        seq![
            "No Shure MVX2U, MVX2U Gen 2, or MV6 devices found."@,
            if linux {
                "Check that the device is plugged in and the udev rule is installed."@
            } else {
                "Check that the device is plugged in and accessible."@
            },
        ]
    } else {
        seq!["Found "@ + text::decimal(devices.len()) + " Shure device(s):"@]
            + devices.map_values(|d: DeviceInfo| device_line(d))
    }
}

/// Lists the devices, line by line. `linux` says whether access is a matter of
/// a udev rule.
pub fn list_devices(devices: &Vec<DeviceInfo>, linux: bool) -> (lines: Vec<String>)
    ensures
        lines@.map_values(|line: String| line@) == device_lines(devices@, linux),
{
    let mut lines: Vec<String> = Vec::new();
    if devices.len() == 0 {
        lines.push("No Shure MVX2U, MVX2U Gen 2, or MV6 devices found.".to_owned());
        lines.push(
            if linux {
                "Check that the device is plugged in and the udev rule is installed.".to_owned()
            } else {
                "Check that the device is plugged in and accessible.".to_owned()
            },
        );
        proof {
            assert(lines@.map_values(|line: String| line@) =~= device_lines(devices@, linux));
        }
        return lines;
    }
    let mut first = "Found ".to_owned();
    text::append_decimal(&mut first, devices.len() as u64);
    first.append(" Shure device(s):");
    lines.push(first);
    for i in 0..devices.len()
        invariant
            devices@.len() > 0,
            lines@.map_values(|line: String| line@) =~= device_lines(devices@, linux).take(i + 1),
    {
        let d = &devices[i];
        let mut line = "  ".to_owned();
        line.append(d.path.as_str());
        line.append(" | ");
        line.append(d.model.display_name());
        line.append(" | S/N: ");
        line.append(d.serial.as_str());
        proof {
            assert(line@ == device_line(devices@[i as int]));
            assert(device_lines(devices@, linux)[i + 1] == device_line(devices@[i as int]));
        }
        let ghost before = lines@;
        lines.push(line);
        proof {
            let all = device_lines(devices@, linux);
            assert(lines@.map_values(|line: String| line@) =~= before.map_values(
                |line: String| line@,
            ).push(all[i + 1]));
            assert(all.take(i + 2) =~= all.take(i + 1).push(all[i + 1]));
        }
    }
    lines
}

/// The model that the interface is for: the one to demonstrate, or else the one
/// that was opened, or else the first that there was.
pub fn choose_model(demo: Option<DeviceModel>, opened: Option<DeviceModel>) -> (model: DeviceModel)
    ensures
        model == (match (demo, opened) {
            (Some(m), _) => m,
            (None, Some(m)) => m,
            (None, None) => DeviceModel::Mvx2u,
        }),
{
    match demo {
        Some(m) => m,
        None => match opened {
            Some(m) => m,
            None => DeviceModel::Mvx2u,
        },
    }
}

/// What the device brought when its state was first read: the state, or the
/// message of a failure; none without a device.
pub open spec fn greeted(app: AppView, reading: Option<Result<DeviceState, String>>) -> AppView {
    match reading {
        Some(Ok(state)) => AppView { device_state: state@, ..app }.told(
            "Connected to "@ + app.device_model.name() + " — state loaded."@,
        ),
        Some(Err(e)) => app.warned("Connected but failed to read state: "@ + e@),
        None => app.told(
            "Demo mode ("@ + app.device_model.name()
                + ") — changes will not be sent to a device."@,
        ),
    }
}

/// Takes over the state that was first read from the device, if there is one,
/// and greets the user.
pub fn greet(app: &mut App, reading: Option<Result<DeviceState, String>>)
    ensures
        final(app)@ == greeted(old(app)@, reading),
{
    let name = app.device_model.display_name();
    match reading {
        Some(Ok(state)) => {
            app.device_state = state;
            let mut message = "Connected to ".to_owned();
            message.append(name);
            message.append(" — state loaded.");
            app.set_ok(message);
        },
        Some(Err(e)) => {
            let mut message = "Connected but failed to read state: ".to_owned();
            message.append(e.as_str());
            app.set_err(message);
        },
        None => {
            let mut message = "Demo mode (".to_owned();
            message.append(name);
            message.append(") — changes will not be sent to a device.");
            app.set_ok(message);
        },
    }
}

/// Tells the user that the input level cannot be measured.
pub fn meter_unavailable(app: &mut App, reason: &str)
    ensures
        final(app)@ == old(app)@.warned("Meter unavailable: "@ + reason@),
{
    let mut message = "Meter unavailable: ".to_owned();
    message.append(reason);
    app.set_err(message);
}

/// Greeting takes over the state that was read, and nothing else; without one the
/// state stays. It is a failure only where reading failed.
pub proof fn greeting_takes_the_state_over(
    app: AppView,
    reading: Option<Result<DeviceState, String>>,
)
    ensures
        ({
            let after = greeted(app, reading);
            &&& reading matches Some(Ok(state)) ==> after.device_state == state@
            &&& !(reading matches Some(Ok(_))) ==> after.device_state == app.device_state
            &&& after.status.ok <==> !(reading matches Some(Err(_)))
            &&& after.presets == app.presets && after.device_model == app.device_model
            &&& after.demo_mode == app.demo_mode && after.should_quit == app.should_quit
            &&& after.focus == app.focus && after.active_tab == app.active_tab
        }),
{
}

/// Every device has a line of its own, in order, after a line that counts them.
pub proof fn every_device_is_listed(devices: Seq<DeviceInfo>, linux: bool, i: int)
    requires
        0 <= i < devices.len(),
    ensures
        device_lines(devices, linux).len() == devices.len() + 1,
        device_lines(devices, linux)[i + 1] == "  "@ + devices[i].path@ + " | "@
            + devices[i].model.name() + " | S/N: "@ + devices[i].serial@,
        device_lines(devices, linux)[0] == "Found "@ + text::decimal(devices.len())
            + " Shure device(s):"@,
{
}

} // verus!
