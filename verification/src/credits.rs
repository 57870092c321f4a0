//! Who to credit for each emulator core, and under what terms: the short form
//! an About dialog shows a user. It must name every core compiled in, because
//! the copyleft ones require the notice.

use vstd::prelude::*;
use vstd::string::StringExecFns;

verus! {

/// One emulator core, as a user should see it credited.
#[derive(Debug, Clone, Copy, PartialEq, Eq)]
pub struct CoreCredit {
    /// What the core is called, as the Settings picker would name it.
    pub label: &'static str,
    /// The chips it serves, as display names.
    pub chips: &'static str,
    /// Who wrote it. `"this project"` for a core written here.
    pub authors: &'static str,
    /// SPDX expression.
    pub license: &'static str,
    /// Where the source lives. Empty for a core with no upstream.
    pub upstream: &'static str,
}

/// The credit for a core written in this project, under its own license.
pub open spec fn own_credit(label: &'static str, chips: &'static str) -> CoreCredit {
    CoreCredit { label, chips, authors: "this project", license: "MIT OR Apache-2.0", upstream: "" }
}

/// The credit for the OPL core.
pub open spec fn nuked_credit() -> CoreCredit {
    CoreCredit {
        label: "Nuked-OPL3",
        chips: "YM3812 (OPL2), YMF262 (OPL3)",
        authors: "Nuke.YKT; Rust port by the nuked-opl3 crate authors",
        license: "LGPL-2.1-or-later",
        upstream: "https://github.com/nukeykt/Nuked-OPL3",
    }
}

/// Every core compiled into this build, as [`credits`] lists them: the OPL
/// core, then one entry for each module of [`crate::cores`].
pub open spec fn credit_list() -> Seq<CoreCredit> {
    seq![
        nuked_credit(),
        own_credit("SN76489 (clean-room)", "SN76489"),
        own_credit("AY-3-8910", "AY-3-8910, YM2149"),
        own_credit("C140", "C140, C219"),
        own_credit("C352", "C352"),
        own_credit("ES5503", "ES5503 DOC"),
        own_credit("GA20", "GA20"),
        own_credit("Game Boy APU", "Game Boy DMG"),
        own_credit("HuC6280", "HuC6280 PSG"),
        own_credit("K051649", "K051649 (SCC), K052539 (SCC+)"),
        own_credit("K053260", "K053260"),
        own_credit("K054539", "K054539"),
        own_credit("MultiPCM", "YMW258-F (MultiPCM)"),
        own_credit("NES APU", "2A03/2A07 APU"),
        own_credit("OKIM6258", "OKIM6258"),
        own_credit("OKIM6295", "OKIM6295"),
        own_credit("32X PWM", "32X PWM"),
        own_credit("QSound", "QSound"),
        own_credit("RF5C68", "RF5C68, RF5C164"),
        own_credit("SAA1099", "SAA1099"),
        own_credit("SegaPCM", "315-5218 (SegaPCM)"),
        own_credit("uPD7759", "uPD7759"),
        own_credit("VSU", "Virtual Boy VSU"),
        own_credit("WonderSwan", "WonderSwan sound unit"),
        own_credit("X1-010", "X1-010"),
        own_credit("YMF278B", "YMF278B (OPL4) wavetable"),
        own_credit("YMZ280B", "YMZ280B"),
    ]
}

/// Every core compiled into this build, in the order they are credited.
pub fn credits() -> (list: &'static [CoreCredit])
    ensures
        list@ == credit_list(),
{
    let list: &'static [CoreCredit] = &[
        CoreCredit {
            label: "Nuked-OPL3",
            chips: "YM3812 (OPL2), YMF262 (OPL3)",
            authors: "Nuke.YKT; Rust port by the nuked-opl3 crate authors",
            license: "LGPL-2.1-or-later",
            upstream: "https://github.com/nukeykt/Nuked-OPL3",
        },
        CoreCredit {
            label: "SN76489 (clean-room)",
            chips: "SN76489",
            authors: "this project",
            license: "MIT OR Apache-2.0",
            upstream: "",
        },
        CoreCredit {
            label: "AY-3-8910",
            chips: "AY-3-8910, YM2149",
            authors: "this project",
            license: "MIT OR Apache-2.0",
            upstream: "",
        },
        CoreCredit {
            label: "C140",
            chips: "C140, C219",
            authors: "this project",
            license: "MIT OR Apache-2.0",
            upstream: "",
        },
        CoreCredit {
            label: "C352",
            chips: "C352",
            authors: "this project",
            license: "MIT OR Apache-2.0",
            upstream: "",
        },
        CoreCredit {
            label: "ES5503",
            chips: "ES5503 DOC",
            authors: "this project",
            license: "MIT OR Apache-2.0",
            upstream: "",
        },
        CoreCredit {
            label: "GA20",
            chips: "GA20",
            authors: "this project",
            license: "MIT OR Apache-2.0",
            upstream: "",
        },
        CoreCredit {
            label: "Game Boy APU",
            chips: "Game Boy DMG",
            authors: "this project",
            license: "MIT OR Apache-2.0",
            upstream: "",
        },
        CoreCredit {
            label: "HuC6280",
            chips: "HuC6280 PSG",
            authors: "this project",
            license: "MIT OR Apache-2.0",
            upstream: "",
        },
        CoreCredit {
            label: "K051649",
            chips: "K051649 (SCC), K052539 (SCC+)",
            authors: "this project",
            license: "MIT OR Apache-2.0",
            upstream: "",
        },
        CoreCredit {
            label: "K053260",
            chips: "K053260",
            authors: "this project",
            license: "MIT OR Apache-2.0",
            upstream: "",
        },
        CoreCredit {
            label: "K054539",
            chips: "K054539",
            authors: "this project",
            license: "MIT OR Apache-2.0",
            upstream: "",
        },
        CoreCredit {
            label: "MultiPCM",
            chips: "YMW258-F (MultiPCM)",
            authors: "this project",
            license: "MIT OR Apache-2.0",
            upstream: "",
        },
        CoreCredit {
            label: "NES APU",
            chips: "2A03/2A07 APU",
            authors: "this project",
            license: "MIT OR Apache-2.0",
            upstream: "",
        },
        CoreCredit {
            label: "OKIM6258",
            chips: "OKIM6258",
            authors: "this project",
            license: "MIT OR Apache-2.0",
            upstream: "",
        },
        CoreCredit {
            label: "OKIM6295",
            chips: "OKIM6295",
            authors: "this project",
            license: "MIT OR Apache-2.0",
            upstream: "",
        },
        CoreCredit {
            label: "32X PWM",
            chips: "32X PWM",
            authors: "this project",
            license: "MIT OR Apache-2.0",
            upstream: "",
        },
        CoreCredit {
            label: "QSound",
            chips: "QSound",
            authors: "this project",
            license: "MIT OR Apache-2.0",
            upstream: "",
        },
        CoreCredit {
            label: "RF5C68",
            chips: "RF5C68, RF5C164",
            authors: "this project",
            license: "MIT OR Apache-2.0",
            upstream: "",
        },
        CoreCredit {
            label: "SAA1099",
            chips: "SAA1099",
            authors: "this project",
            license: "MIT OR Apache-2.0",
            upstream: "",
        },
        CoreCredit {
            label: "SegaPCM",
            chips: "315-5218 (SegaPCM)",
            authors: "this project",
            license: "MIT OR Apache-2.0",
            upstream: "",
        },
        CoreCredit {
            label: "uPD7759",
            chips: "uPD7759",
            authors: "this project",
            license: "MIT OR Apache-2.0",
            upstream: "",
        },
        CoreCredit {
            label: "VSU",
            chips: "Virtual Boy VSU",
            authors: "this project",
            license: "MIT OR Apache-2.0",
            upstream: "",
        },
        CoreCredit {
            label: "WonderSwan",
            chips: "WonderSwan sound unit",
            authors: "this project",
            license: "MIT OR Apache-2.0",
            upstream: "",
        },
        CoreCredit {
            label: "X1-010",
            chips: "X1-010",
            authors: "this project",
            license: "MIT OR Apache-2.0",
            upstream: "",
        },
        CoreCredit {
            label: "YMF278B",
            chips: "YMF278B (OPL4) wavetable",
            authors: "this project",
            license: "MIT OR Apache-2.0",
            upstream: "",
        },
        CoreCredit {
            label: "YMZ280B",
            chips: "YMZ280B",
            authors: "this project",
            license: "MIT OR Apache-2.0",
            upstream: "",
        },
    ];
    assert(list@ =~= credit_list());
    list
}

/// One core's stanza: its label and chips, its authors and license, and its
/// upstream on a line of its own when it has one.
pub open spec fn stanza(core: CoreCredit) -> Seq<char> {
    let head = "  "@ + core.label@ + " -- "@ + core.chips@ + "\n"@;
    let terms = "    "@ + core.authors@ + ", "@ + core.license@ + "\n"@;
    if core.upstream@.len() == 0 {
        head + terms
    } else {
        head + terms + "    "@ + core.upstream@ + "\n"@
    }
}

/// The stanzas of `list`, in order.
pub open spec fn stanzas(list: Seq<CoreCredit>) -> Seq<char>
    decreases list.len(),
{
    if list.len() == 0 {
        Seq::empty()
    } else {
        stanzas(list.drop_last()) + stanza(list.last())
    }
}

/// The credits as plain lines, one core per stanza.
pub fn credits_text() -> (text: String)
    ensures
        text@ == stanzas(credit_list()),
{
    let list = credits();
    let mut out = String::new();
    let mut i: usize = 0;
    while i < list.len()
        invariant
            i <= list@.len(),
            out@ == stanzas(list@.take(i as int)),
        decreases list@.len() - i,
    {
        let core = list[i];
        let ghost before = out@;
        out.append("  ");
        out.append(core.label);
        out.append(" -- ");
        out.append(core.chips);
        out.append("\n");
        out.append("    ");
        out.append(core.authors);
        out.append(", ");
        out.append(core.license);
        out.append("\n");
        if !core.upstream.is_empty() {
            out.append("    ");
            out.append(core.upstream);
            out.append("\n");
        }
        proof {
            assert(out@ =~= before + stanza(core));
            assert(list@.take(i + 1).drop_last() =~= list@.take(i as int));
            assert(list@.take(i + 1).last() == core);
            assert(out@ =~= stanzas(list@.take(i + 1)));
        }
        i = i + 1;
    }
    proof {
        assert(list@.take(i as int) =~= list@);
    }
    out
}

} // verus!
