//! The human-readable report of a gamepad scan.
use vstd::prelude::*;

use crate::gamepad::{GamepadCapability, GamepadInfo, InputDetectionResult, InputDeviceError};
use crate::text::{decimal, decimal_string, hex4, hex4_string};

verus! {

/// One capability line; the last one closes the tree.
pub open spec fn capability_line(cap: GamepadCapability, last: bool) -> Seq<char> {
    (if last {
        "    └─ "@
    } else {
        "    ├─ "@
    }) + cap.spec_label() + "\n"@
}

/// The lines of the first `k` capabilities of a list.
pub open spec fn capability_lines(caps: Seq<GamepadCapability>, k: int) -> Seq<char>
    decreases k,
{
    if k <= 0 {
        Seq::empty()
    } else {
        capability_lines(caps, k - 1) + capability_line(caps[k - 1], k - 1 == caps.len() - 1)
    }
}

/// The capability block of one gamepad.
pub open spec fn capabilities_text(caps: Seq<GamepadCapability>) -> Seq<char> {
    if caps.len() == 0 {
        "    └─ None detected\n"@
    } else {
        capability_lines(caps, caps.len() as int)
    }
}

/// The block of the `i`-th gamepad found.
pub open spec fn entry_text(i: int, info: GamepadInfo) -> Seq<char> {
    "["@ + decimal(i) + "] "@ + info.name@ + " ("@ + info.path@ + ")\n"@ + " ├─ Type: "@
        + info.gamepad_type.spec_label() + "\n"@ + " ├─ Vendor:\n"@ + " │  ├─ ID: "@ + hex4(
        info.vendor_id,
    ) + "\n"@ + " │  └─ Name: "@ + info.vendor_name@ + "\n"@ + " ├─ Product ID: "@ + hex4(
        info.product_id,
    ) + "\n"@ + " └─ Capabilities:\n"@ + capabilities_text(info.capabilities@) + "\n"@
}

/// The blocks of the first `k` gamepads.
pub open spec fn entries_text(infos: Seq<GamepadInfo>, k: int) -> Seq<char>
    decreases k,
{
    if k <= 0 {
        Seq::empty()
    } else {
        entries_text(infos, k - 1) + entry_text(k - 1, infos[k - 1])
    }
}

/// The full-path lines of the first `k` gamepads.
pub open spec fn paths_text(infos: Seq<GamepadInfo>, k: int) -> Seq<char>
    decreases k,
{
    if k <= 0 {
        Seq::empty()
    } else {
        paths_text(infos, k - 1) + "  ["@ + decimal(k - 1) + "] Full path: "@ + infos[k
            - 1].path@ + "\n"@
    }
}

/// The lines of the first `k` errors.
pub open spec fn errors_text(errors: Seq<InputDeviceError>, k: int) -> Seq<char>
    decreases k,
{
    if k <= 0 {
        Seq::empty()
    } else {
        errors_text(errors, k - 1) + "  • "@ + errors[k - 1].spec_text() + "\n"@
    }
}

/// The report of a scan: either that nothing was found, with any errors, or each gamepad
/// as a small tree, followed by the full paths when `verbose`.
pub open spec fn report_text(result: InputDetectionResult, verbose: bool) -> Seq<char> {
    let infos = result.gamepad_info@;
    let errors = result.errors@;
    if infos.len() == 0 {
        "No controllers found.\n"@ + if errors.len() > 0 {
            "\nErrors encountered:\n"@ + errors_text(errors, errors.len() as int)
        } else {
            Seq::empty()
        }
    } else {
        "Found "@ + decimal(infos.len() as int) + " controller(s):\n\n"@ + entries_text(
            infos,
            infos.len() as int,
        ) + if verbose {
            "Verbose Information:\n"@ + paths_text(infos, infos.len() as int)
        } else {
            Seq::empty()
        }
    }
}

fn capabilities_block(caps: &Vec<GamepadCapability>) -> (r: String)
    ensures
        r@ == capabilities_text(caps@),
{
    if caps.len() == 0 {
        return String::from_str("    └─ None detected\n");
    }
    let mut s = String::new();
    let mut j: usize = 0;
    while j < caps.len()
        invariant
            j <= caps@.len(),
            s@ == capability_lines(caps@, j as int),
        decreases caps@.len() - j,
    {
        if j == caps.len() - 1 {
            s.append("    └─ ");
        } else {
            s.append("    ├─ ");
        }
        s.append(caps[j].label());
        s.append("\n");
        proof {
            assert(s@ =~= capability_lines(caps@, j + 1));
        }
        j = j + 1;
    }
    s
}

fn entry_block(i: usize, info: &GamepadInfo) -> (r: String)
    ensures
        r@ == entry_text(i as int, *info),
{
    let mut s = String::from_str("[");
    s.append(decimal_string(i as i128).as_str());
    s.append("] ");
    s.append(info.name.as_str());
    s.append(" (");
    s.append(info.path.as_str());
    s.append(")\n");
    s.append(" ├─ Type: ");
    s.append(info.gamepad_type.label());
    s.append("\n");
    s.append(" ├─ Vendor:\n");
    s.append(" │  ├─ ID: ");
    s.append(hex4_string(info.vendor_id).as_str());
    s.append("\n");
    s.append(" │  └─ Name: ");
    s.append(info.vendor_name.as_str());
    s.append("\n");
    s.append(" ├─ Product ID: ");
    s.append(hex4_string(info.product_id).as_str());
    s.append("\n");
    s.append(" └─ Capabilities:\n");
    s.append(capabilities_block(&info.capabilities).as_str());
    s.append("\n");
    proof {
        assert(s@ =~= entry_text(i as int, *info));
    }
    s
}

/// Renders the report of a scan (see `report_text`).
pub fn write_results(result: &InputDetectionResult, verbose: bool) -> (r: String)
    ensures
        r@ == report_text(*result, verbose),
{
    let infos = &result.gamepad_info;
    let errors = &result.errors;
    if infos.len() == 0 {
        let mut s = String::from_str("No controllers found.\n");
        if errors.len() > 0 {
            let mut lines = String::new();
            let mut k: usize = 0;
            while k < errors.len()
                invariant
                    k <= errors@.len(),
                    lines@ == errors_text(errors@, k as int),
                decreases errors@.len() - k,
            {
                lines.append("  • ");
                lines.append(errors[k].to_string().as_str());
                lines.append("\n");
                proof {
                    assert(lines@ =~= errors_text(errors@, k + 1));
                }
                k = k + 1;
            }
            s.append("\nErrors encountered:\n");
            s.append(lines.as_str());
            proof {
                assert(s@ =~= report_text(*result, verbose));
            }
        } else {
            proof {
                assert(s@ =~= report_text(*result, verbose));
            }
        }
        return s;
    }
    let mut body = String::new();
    let mut i: usize = 0;
    while i < infos.len()
        invariant
            i <= infos@.len(),
            body@ == entries_text(infos@, i as int),
        decreases infos@.len() - i,
    {
        body.append(entry_block(i, &infos[i]).as_str());
        proof {
            assert(body@ =~= entries_text(infos@, i + 1));
        }
        i = i + 1;
    }
    let mut s = String::from_str("Found ");
    s.append(decimal_string(infos.len() as i128).as_str());
    s.append(" controller(s):\n\n");
    s.append(body.as_str());
    if verbose {
        let mut paths = String::new();
        let mut k: usize = 0;
        while k < infos.len()
            invariant
                k <= infos@.len(),
                paths@ == paths_text(infos@, k as int),
            decreases infos@.len() - k,
        {
            paths.append("  [");
            paths.append(decimal_string(k as i128).as_str());
            paths.append("] Full path: ");
            paths.append(infos[k].path.as_str());
            paths.append("\n");
            proof {
                assert(paths@ =~= paths_text(infos@, k + 1));
            }
            k = k + 1;
        }
        s.append("Verbose Information:\n");
        s.append(paths.as_str());
    }
    proof {
        assert(s@ =~= report_text(*result, verbose));
    }
    s
}

} // verus!
