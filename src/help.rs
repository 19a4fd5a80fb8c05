use vstd::prelude::*;
use vstd::string::*;

verus! {

/// The option column of the usage text, with one description per option.
pub open spec fn help_options() -> Seq<(Seq<char>, Seq<char>)> {
    seq![
        ("-i, --input <FILE>"@, "Input MCAP file path (required)"@),
        ("-o, --output <FILE>"@, "Output MCAP file path (default: compressed_video.mcap)"@),
        ("--silent"@, "Disable verbose output. Errors and build logs will still be printed."@),
        ("--warm-up"@, "Warm up the Rust environment and exit (for CI/Docker)"@),
        ("-h, --help"@, "Show this help message"@),
    ]
}

/// Length of the longest option string (0 for no options).
pub open spec fn max_option_len(opts: Seq<(Seq<char>, Seq<char>)>) -> nat
    decreases opts.len(),
{
    if opts.len() == 0 {
        0
    } else {
        let rest = max_option_len(opts.drop_last());
        let here = opts.last().0.len();
        if here > rest { here } else { rest }
    }
}

pub open spec fn spaces(n: nat) -> Seq<char>
    decreases n,
{
    if n == 0 { seq![] } else { spaces((n - 1) as nat) + seq![' '] }
}

/// `s` left-aligned in a column of `w` characters.
pub open spec fn pad_right(s: Seq<char>, w: nat) -> Seq<char> {
    if s.len() >= w { s } else { s + spaces((w - s.len()) as nat) }
}

pub open spec fn option_line(opt: (Seq<char>, Seq<char>), w: nat) -> Seq<char> {
    "  "@ + pad_right(opt.0, w) + "  "@ + opt.1 + "\n"@
}

pub open spec fn option_lines(opts: Seq<(Seq<char>, Seq<char>)>, w: nat) -> Seq<char>
    decreases opts.len(),
{
    if opts.len() == 0 {
        seq![]
    } else {
        option_lines(opts.drop_last(), w) + option_line(opts.last(), w)
    }
}

pub open spec fn help_header() -> Seq<char> {
    "mcap-videoify - Convert MCAP files containing image data to compressed video\n\n"@
        + "Usage:\n"@ + "  mcap-videoify [OPTIONS]\n\n"@ + "Options:\n"@
}

pub open spec fn help_footer() -> Seq<char> {
    "\nDescription:\n"@
        + "  This tool processes MCAP files containing image data and converts them to\n"@
        + "  compressed H.264 video streams. It preserves the original message timing\n"@
        + "  and metadata while significantly reducing file size through video compression."@
}

/// The whole usage text: options aligned on the longest option string.
pub open spec fn help_text() -> Seq<char> {
    help_header() + option_lines(help_options(), max_option_len(help_options()))
        + help_footer()
}

/// Appends `n` spaces to `s`.
fn push_spaces(s: &mut String, n: usize)
    ensures
        final(s)@ == old(s)@ + spaces(n as nat),
{
    let mut i: usize = 0;
    while i < n
        invariant
            i <= n,
            s@ == old(s)@ + spaces(i as nat),
        decreases n - i,
    {
        s.append(" ");
        proof {
            assert(spaces((i + 1) as nat) == spaces(i as nat) + seq![' ']);
            assert(" "@ =~= seq![' ']) by {
                reveal_strlit(" ");
            }
        }
        i = i + 1;
    }
}

/// The usage text of the command-line program.
pub fn get_help_msg() -> (r: String)
    ensures
        r@ == help_text(),
{
    let options: Vec<(&str, &str)> = vec![
        ("-i, --input <FILE>", "Input MCAP file path (required)"),
        ("-o, --output <FILE>", "Output MCAP file path (default: compressed_video.mcap)"),
        ("--silent", "Disable verbose output. Errors and build logs will still be printed."),
        ("--warm-up", "Warm up the Rust environment and exit (for CI/Docker)"),
        ("-h, --help", "Show this help message"),
    ];
    let ghost opts = options@.map_values(|p: (&str, &str)| (p.0@, p.1@));
    assert(opts =~= help_options());

    let mut width: usize = 0;
    let mut i: usize = 0;
    while i < options.len()
        invariant
            i <= options.len(),
            opts == options@.map_values(|p: (&str, &str)| (p.0@, p.1@)),
            opts.len() == 5,
            width as nat == max_option_len(opts.take(i as int)),
        decreases options.len() - i,
    {
        let len = options[i].0.unicode_len();
        assert(opts.take(i + 1).drop_last() =~= opts.take(i as int));
        if len > width {
            width = len;
        }
        i = i + 1;
    }
    assert(opts.take(5) =~= opts);

    let mut msg = String::from_str(
        "mcap-videoify - Convert MCAP files containing image data to compressed video\n\n",
    );
    msg.append("Usage:\n");
    msg.append("  mcap-videoify [OPTIONS]\n\n");
    msg.append("Options:\n");
    assert(msg@ =~= help_header());

    let ghost before = msg@;
    let mut j: usize = 0;
    while j < options.len()
        invariant
            j <= options.len(),
            opts == options@.map_values(|p: (&str, &str)| (p.0@, p.1@)),
            opts.len() == 5,
            msg@ == before + option_lines(opts.take(j as int), width as nat),
        decreases options.len() - j,
    {
        let (opt, desc) = options[j];
        let ghost start = msg@;
        msg.append("  ");
        msg.append(opt);
        let olen = opt.unicode_len();
        if olen < width {
            push_spaces(&mut msg, width - olen);
        }
        msg.append("  ");
        msg.append(desc);
        msg.append("\n");
        proof {
            assert(opts.take(j + 1).drop_last() =~= opts.take(j as int));
            assert(msg@ =~= start + option_line(opts[j as int], width as nat));
        }
        j = j + 1;
    }
    assert(opts.take(5) =~= opts);

    msg.append("\nDescription:\n");
    msg.append("  This tool processes MCAP files containing image data and converts them to\n");
    msg.append("  compressed H.264 video streams. It preserves the original message timing\n");
    msg.append(
        "  and metadata while significantly reducing file size through video compression.",
    );
    assert(msg@ =~= help_text());
    msg
}

} // verus!
