//! The welcome screen: a logo beside facts about the machine.
use vstd::prelude::*;
use crate::text::{decimal, decimal_string};

verus! {

/// What the welcome screen tells of the machine. The memory figures are in
/// GiB, written with two decimals by the caller.
pub struct SystemFacts {
    pub os_name: Option<String>,
    pub os_version: Option<String>,
    pub host_name: Option<String>,
    pub uptime_secs: u64,
    pub cpu_brand: Option<String>,
    pub used_mem_gib: String,
    pub total_mem_gib: String,
    pub mem_percent: u64,
}

/// `text`, or `default` where there is none.
pub open spec fn or_default(text: Option<String>, default: Seq<char>) -> Seq<char> {
    match text {
        Some(t) => t@,
        None => default,
    }
}

fn text_or(text: &Option<String>, default: &str) -> (s: String)
    ensures
        s@ == or_default(*text, default@),
{
    match text {
        Some(t) => t.clone(),
        None => String::from_str(default),
    }
}

/// The uptime in whole hours and the minutes left over.
pub open spec fn uptime_spec(secs: nat) -> Seq<char> {
    decimal(secs / 3600) + " hours, "@ + decimal((secs % 3600) / 60) + " mins"@
}

/// `N hours, M mins` for an uptime in seconds.
pub fn uptime_text(secs: u64) -> (s: String)
    ensures
        s@ == uptime_spec(secs as nat),
{
    let mut s = decimal_string(secs / 3600);
    s.append(" hours, ");
    s.append(decimal_string((secs % 3600) / 60).as_str());
    s.append(" mins");
    s
}

/// The lines of the logo, each of the same width.
pub open spec fn logo_lines() -> Seq<Seq<char>> {
    seq![
        "   ______          "@,
        "  |  ____|         "@,
        "  | |__            "@,
        "  |  __|           "@,
        "  | |              "@,
        "  |_|              "@,
        "                   "@,
        "                   "@,
    ]
}

fn logo() -> (v: Vec<String>)
    ensures
        v.deep_view() == logo_lines(),
{
    let v = vec![
        String::from_str("   ______          "),
        String::from_str("  |  ____|         "),
        String::from_str("  | |__            "),
        String::from_str("  |  __|           "),
        String::from_str("  | |              "),
        String::from_str("  |_|              "),
        String::from_str("                   "),
        String::from_str("                   "),
    ];
    assert(v.deep_view() =~= logo_lines());
    v
}

/// The lines of facts shown beside the logo.
pub open spec fn info_lines(f: SystemFacts) -> Seq<Seq<char>> {
    seq![
        "OS      "@ + or_default(f.os_name, "Unknown"@) + " "@ + or_default(f.os_version, ""@),
        "HOST    "@ + or_default(f.host_name, "Unknown"@),
        "UPTIME  "@ + uptime_spec(f.uptime_secs as nat),
        "SHELL   iron_shell 0.1.0"@,
        ""@,
        "SYSTEM STATUS"@,
        "CPU     "@ + or_default(f.cpu_brand, "Unknown CPU"@),
        "MEM     "@ + f.used_mem_gib@ + " GiB / "@ + f.total_mem_gib@ + " GiB ("@ + decimal(
            f.mem_percent as nat,
        ) + "%)"@,
    ]
}

fn info(f: &SystemFacts) -> (v: Vec<String>)
    ensures
        v.deep_view() == info_lines(*f),
{
    let mut os = String::from_str("OS      ");
    os.append(text_or(&f.os_name, "Unknown").as_str());
    os.append(" ");
    os.append(text_or(&f.os_version, "").as_str());
    let mut host = String::from_str("HOST    ");
    host.append(text_or(&f.host_name, "Unknown").as_str());
    let mut up = String::from_str("UPTIME  ");
    up.append(uptime_text(f.uptime_secs).as_str());
    let mut cpu = String::from_str("CPU     ");
    cpu.append(text_or(&f.cpu_brand, "Unknown CPU").as_str());
    let mut mem = String::from_str("MEM     ");
    mem.append(f.used_mem_gib.as_str());
    mem.append(" GiB / ");
    mem.append(f.total_mem_gib.as_str());
    mem.append(" GiB (");
    mem.append(decimal_string(f.mem_percent).as_str());
    mem.append("%)");
    let v = vec![
        os,
        host,
        up,
        String::from_str("SHELL   iron_shell 0.1.0"),
        String::from_str(""),
        String::from_str("SYSTEM STATUS"),
        cpu,
        mem,
    ];
    assert(v.deep_view() =~= info_lines(*f));
    v
}

/// The rows of the screen: logo line, three spaces, fact, line break.
pub open spec fn rows(logo: Seq<Seq<char>>, info: Seq<Seq<char>>, n: nat) -> Seq<char>
    decreases n,
{
    if n == 0 {
        Seq::empty()
    } else {
        rows(logo, info, (n - 1) as nat) + logo[n - 1] + "   "@ + info[n - 1] + "\n"@
    }
}

/// The closing lines under the rows.
pub open spec fn closing_lines() -> Seq<char> {
    "\n"@ + "  » \"This is our world now... the world of the electron and the switch, the beauty of the baud.\" - The Mentor\n"@
        + "  ● ● ● ● ● ● ●\n\n"@
}

/// The whole welcome screen for the facts `f`.
pub open spec fn welcome_spec(f: SystemFacts) -> Seq<char> {
    "\n"@ + rows(logo_lines(), info_lines(f), 8) + closing_lines()
}

/// The welcome screen: a blank line, then the logo beside the facts about
/// the machine, then a quotation.
pub fn get_welcome_screen(f: &SystemFacts) -> (screen: String)
    ensures
        screen@ == welcome_spec(*f),
{
    let logo = logo();
    let info = info(f);
    let mut out = String::from_str("\n");
    assert(logo_lines().len() == 8);
    assert(info_lines(*f).len() == 8);
    assert(logo.deep_view().len() == logo@.len());
    assert(info.deep_view().len() == info@.len());
    let mut i: usize = 0;
    while i < 8
        invariant
            i <= 8,
            logo@.len() == 8,
            info@.len() == 8,
            logo.deep_view() == logo_lines(),
            info.deep_view() == info_lines(*f),
            out@ == "\n"@ + rows(logo_lines(), info_lines(*f), i as nat),
        decreases 8 - i,
    {
        assert(logo@[i as int]@ == logo.deep_view()[i as int]);
        assert(info@[i as int]@ == info.deep_view()[i as int]);
        out.append(logo[i].as_str());
        out.append("   ");
        out.append(info[i].as_str());
        out.append("\n");
        proof {
            assert(rows(logo_lines(), info_lines(*f), (i + 1) as nat) == rows(logo_lines(), info_lines(*f), i as nat)
                + logo_lines()[i as int] + "   "@ + info_lines(*f)[i as int] + "\n"@);
        }
        i = i + 1;
    }
    out.append("\n");
    out.append(
        "  » \"This is our world now... the world of the electron and the switch, the beauty of the baud.\" - The Mentor\n",
    );
    out.append("  ● ● ● ● ● ● ●\n\n");
    out
}

} // verus!
