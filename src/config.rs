use vstd::prelude::*;

verus! {

/// The run's configuration, as the command line gives it.
pub struct Config {
    pub file: Option<String>,
    pub urls: Vec<String>,
    pub workers: usize,
    pub timeout_secs: u64,
    pub retries: usize,
}

/// A configuration over plain sequences.
pub struct ConfigModel {
    pub file: Option<Seq<char>>,
    pub urls: Seq<Seq<char>>,
    pub workers: usize,
    pub timeout_secs: u64,
    pub retries: usize,
}

impl Config {
    pub open spec fn model(&self) -> ConfigModel {
        ConfigModel {
            file: match self.file {
                Some(f) => Some(f@),
                None => None,
            },
            urls: self.urls@.map_values(|u: String| u@),
            workers: self.workers,
            timeout_secs: self.timeout_secs,
            retries: self.retries,
        }
    }
}

/// The text of each argument.
pub open spec fn arg_views(args: Seq<String>) -> Seq<Seq<char>> {
    args.map_values(|a: String| a@)
}

pub uninterp spec fn usize_parse(s: Seq<char>) -> Option<usize>;

pub uninterp spec fn u64_parse(s: Seq<char>) -> Option<u64>;

/// Relies on `str::parse::<usize>`: the result depends on the text alone.
#[verifier::external_body]
fn parse_usize(s: &str) -> (r: Option<usize>)
    ensures
        r == usize_parse(s@),
{
    s.parse::<usize>().ok()
}

/// Relies on `str::parse::<u64>`: the result depends on the text alone.
#[verifier::external_body]
fn parse_u64(s: &str) -> (r: Option<u64>)
    ensures
        r == u64_parse(s@),
{
    s.parse::<u64>().ok()
}

pub open spec fn is_flag_like(a: Seq<char>) -> bool {
    a.len() >= 2 && a[0] == '-' && a[1] == '-'
}

pub open spec fn missing(flag: Seq<char>) -> Seq<char> {
    "Missing value after "@ + flag
}

pub open spec fn invalid(flag: Seq<char>) -> Seq<char> {
    "Invalid value for "@ + flag
}

/// Reads the arguments from index `i` on into `acc`: each of `--file`,
/// `--workers`, `--timeout` and `--retries` takes the next argument as its
/// value; another argument starting with `--` is an unknown flag; any other
/// argument is a URL.
pub open spec fn parse_from(args: Seq<Seq<char>>, i: int, acc: ConfigModel) -> Result<
    ConfigModel,
    Seq<char>,
>
    decreases args.len() - i,
{
    if i < 0 || i >= args.len() {
        Ok(acc)
    } else {
        let a = args[i];
        let has_value = i + 1 < args.len();
        let v = args[i + 1];
        if a == "--file"@ {
            if !has_value {
                Err(missing(a))
            } else {
                parse_from(args, i + 2, ConfigModel { file: Some(v), ..acc })
            }
        } else if a == "--workers"@ {
            if !has_value {
                Err(missing(a))
            } else {
                match usize_parse(v) {
                    Some(n) => parse_from(args, i + 2, ConfigModel { workers: n, ..acc }),
                    None => Err(invalid(a)),
                }
            }
        } else if a == "--timeout"@ {
            if !has_value {
                Err(missing(a))
            } else {
                match u64_parse(v) {
                    Some(n) => parse_from(args, i + 2, ConfigModel { timeout_secs: n, ..acc }),
                    None => Err(invalid(a)),
                }
            }
        } else if a == "--retries"@ {
            if !has_value {
                Err(missing(a))
            } else {
                match usize_parse(v) {
                    Some(n) => parse_from(args, i + 2, ConfigModel { retries: n, ..acc }),
                    None => Err(invalid(a)),
                }
            }
        } else if is_flag_like(a) {
            Err("Unknown flag: "@ + a)
        } else {
            parse_from(args, i + 1, ConfigModel { urls: acc.urls.push(a), ..acc })
        }
    }
}

/// What the command line `args` (the program name first) configures, with
/// `default_workers` workers, 5 seconds and 3 retries unless a flag says
/// otherwise; a line with neither a file nor a URL is refused.
pub open spec fn parsed(args: Seq<Seq<char>>, default_workers: usize) -> Result<
    ConfigModel,
    Seq<char>,
> {
    let init = ConfigModel {
        file: None,
        urls: Seq::empty(),
        workers: default_workers,
        timeout_secs: 5,
        retries: 3,
    };
    match parse_from(args, 1, init) {
        Ok(m) => if m.file is None && m.urls.len() == 0 {
            Err("Please specify --file <path> or one or more URLs."@)
        } else {
            Ok(m)
        },
        Err(e) => Err(e),
    }
}

fn flag_error(prefix: &str, flag: &String) -> (r: String)
    ensures
        r@ == prefix@ + flag@,
{
    let s = String::from_str(prefix);
    s.concat(flag.as_str())
}

/// Reads the command line `args` (the program name first) into a
/// configuration, with `default_workers` workers unless `--workers` says
/// otherwise.
pub fn parse_args(args: &Vec<String>, default_workers: usize) -> (r: Result<Config, String>)
    ensures
        match (r, parsed(arg_views(args@), default_workers)) {
            (Ok(c), Ok(m)) => c.model() == m,
            (Err(e), Err(m)) => e@ == m,
            _ => false,
        },
{
    let ghost av = arg_views(args@);
    let file_flag = String::from_str("--file");
    let workers_flag = String::from_str("--workers");
    let timeout_flag = String::from_str("--timeout");
    let retries_flag = String::from_str("--retries");
    let mut c = Config {
        file: None,
        urls: Vec::new(),
        workers: default_workers,
        timeout_secs: 5,
        retries: 3,
    };
    proof {
        assert(c.model().urls =~= Seq::<Seq<char>>::empty());
    }
    let ghost init = c.model();
    let mut i: usize = 1;
    while i < args.len()
        invariant
            av == arg_views(args@),
            file_flag@ == "--file"@,
            workers_flag@ == "--workers"@,
            timeout_flag@ == "--timeout"@,
            retries_flag@ == "--retries"@,
            1 <= i,
            init == (ConfigModel {
                file: None,
                urls: Seq::empty(),
                workers: default_workers,
                timeout_secs: 5,
                retries: 3,
            }),
            parse_from(av, i as int, c.model()) == parse_from(av, 1, init),
        decreases args.len() - i,
    {
        let a = &args[i];
        let has_value = i + 1 < args.len();
        proof {
            assert(av[i as int] == a@);
            if has_value {
                assert(av[i + 1] == args@[i + 1]@);
            }
        }
        if *a == file_flag {
            if !has_value {
                return Err(flag_error("Missing value after ", a));
            }
            c.file = Some(args[i + 1].clone());
            i = i + 2;
        } else if *a == workers_flag {
            if !has_value {
                return Err(flag_error("Missing value after ", a));
            }
            match parse_usize(args[i + 1].as_str()) {
                Some(n) => c.workers = n,
                None => return Err(flag_error("Invalid value for ", a)),
            }
            i = i + 2;
        } else if *a == timeout_flag {
            if !has_value {
                return Err(flag_error("Missing value after ", a));
            }
            match parse_u64(args[i + 1].as_str()) {
                Some(n) => c.timeout_secs = n,
                None => return Err(flag_error("Invalid value for ", a)),
            }
            i = i + 2;
        } else if *a == retries_flag {
            if !has_value {
                return Err(flag_error("Missing value after ", a));
            }
            match parse_usize(args[i + 1].as_str()) {
                Some(n) => c.retries = n,
                None => return Err(flag_error("Invalid value for ", a)),
            }
            i = i + 2;
        } else if a.as_str().unicode_len() >= 2 && a.as_str().get_char(0) == '-'
            && a.as_str().get_char(1) == '-' {
            return Err(flag_error("Unknown flag: ", a));
        } else {
            let ghost before = c.model();
            c.urls.push(a.clone());
            proof {
                assert(c.model().urls =~= before.urls.push(a@));
                assert(c.model() == ConfigModel { urls: before.urls.push(a@), ..before });
            }
            i = i + 1;
        }
    }
    if c.file.is_none() && c.urls.len() == 0 {
        return Err(String::from_str("Please specify --file <path> or one or more URLs."));
    }
    Ok(c)
}

} // verus!
