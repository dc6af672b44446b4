//! Where the configuration and history files live. A path is given as its
//! components: the first is a directory taken from the environment, each
//! later one is joined below it.
use vstd::prelude::*;
use vstd::string::*;

verus! {

pub open spec fn path_view(r: Option<Vec<String>>) -> Option<Seq<Seq<char>>> {
    match r {
        Some(v) => Some(v.deep_view()),
        None => None,
    }
}

/// The configuration directory: `$FEND_CONFIG_DIR`, else `$XDG_CONFIG_HOME/fend`,
/// else `~/.config/fend`.
pub open spec fn config_dir_of(
    fend_config_dir: Option<Seq<char>>,
    xdg_config_home: Option<Seq<char>>,
    home: Option<Seq<char>>,
) -> Option<Seq<Seq<char>>> {
    match fend_config_dir {
        Some(d) => Some(seq![d]),
        None => match xdg_config_home {
            Some(x) => Some(seq![x, "fend"@]),
            None => match home {
                Some(h) => Some(seq![h, ".config"@, "fend"@]),
                None => None,
            },
        },
    }
}

/// `config.toml` inside the configuration directory.
pub open spec fn config_file_of(
    fend_config_dir: Option<Seq<char>>,
    xdg_config_home: Option<Seq<char>>,
    home: Option<Seq<char>>,
) -> Option<Seq<Seq<char>>> {
    match config_dir_of(fend_config_dir, xdg_config_home, home) {
        Some(dir) => Some(dir.push("config.toml"@)),
        None => None,
    }
}

/// The history directory: `$FEND_STATE_DIR`, else `$XDG_STATE_HOME/fend`,
/// else `~/.local/state/fend`.
pub open spec fn history_dir_of(
    fend_state_dir: Option<Seq<char>>,
    xdg_state_home: Option<Seq<char>>,
    home: Option<Seq<char>>,
) -> Option<Seq<Seq<char>>> {
    match fend_state_dir {
        Some(d) => Some(seq![d]),
        None => match xdg_state_home {
            Some(x) => Some(seq![x, "fend"@]),
            None => match home {
                Some(h) => Some(seq![h, ".local"@, "state"@, "fend"@]),
                None => None,
            },
        },
    }
}

/// The history file inside the history directory.
pub open spec fn history_file_of(dir: Seq<Seq<char>>) -> Seq<Seq<char>> {
    dir.push("history"@)
}

pub open spec fn opt_view(s: Option<String>) -> Option<Seq<char>> {
    match s {
        Some(s) => Some(s@),
        None => None,
    }
}

/// Relies on home::home_dir: the current user's home directory, if one is
/// found. It depends on the environment, so nothing is stated of it; a path
/// that is not valid Unicode is reported as absent.
#[verifier::external_body]
fn home_dir() -> (r: Option<String>) {
    let dir = home::home_dir()?;
    dir.into_os_string().into_string().ok()
}

fn component(s: &str) -> (r: String)
    ensures
        r@ == s@,
{
    String::from_str(s)
}

pub fn config_dir_from(
    fend_config_dir: Option<String>,
    xdg_config_home: Option<String>,
    home: Option<String>,
) -> (r: Option<Vec<String>>)
    ensures
        path_view(r) == config_dir_of(
            opt_view(fend_config_dir),
            opt_view(xdg_config_home),
            opt_view(home),
        ),
{
    let mut res: Vec<String> = Vec::new();
    if let Some(dir) = fend_config_dir {
        res.push(dir);
    } else if let Some(dir) = xdg_config_home {
        res.push(dir);
        res.push(component("fend"));
    } else if let Some(dir) = home {
        res.push(dir);
        res.push(component(".config"));
        res.push(component("fend"));
    } else {
        return None;
    }
    proof {
        assert(res.deep_view() =~= config_dir_of(
            opt_view(fend_config_dir),
            opt_view(xdg_config_home),
            opt_view(home),
        )->Some_0);
    }
    Some(res)
}

pub fn config_file_location_from(
    fend_config_dir: Option<String>,
    xdg_config_home: Option<String>,
    home: Option<String>,
) -> (r: Option<Vec<String>>)
    ensures
        path_view(r) == config_file_of(
            opt_view(fend_config_dir),
            opt_view(xdg_config_home),
            opt_view(home),
        ),
{
    let ghost dir = config_dir_of(
        opt_view(fend_config_dir),
        opt_view(xdg_config_home),
        opt_view(home),
    );
    let mut path = match config_dir_from(fend_config_dir, xdg_config_home, home) {
        Some(p) => p,
        None => return None,
    };
    path.push(component("config.toml"));
    assert(path.deep_view() =~= dir->Some_0.push("config.toml"@));
    Some(path)
}

/// The configuration file, given the values of `FEND_CONFIG_DIR` and
/// `XDG_CONFIG_HOME`. The home directory is looked up only where both are unset.
pub fn get_config_file_location(
    fend_config_dir: Option<String>,
    xdg_config_home: Option<String>,
) -> (r: Option<Vec<String>>)
    ensures
        fend_config_dir is Some || xdg_config_home is Some ==> path_view(r) == config_file_of(
            opt_view(fend_config_dir),
            opt_view(xdg_config_home),
            None,
        ),
        exists|home: Option<Seq<char>>|
            path_view(r) == config_file_of(
                opt_view(fend_config_dir),
                opt_view(xdg_config_home),
                home,
            ),
{
    let home = if fend_config_dir.is_none() && xdg_config_home.is_none() {
        home_dir()
    } else {
        None
    };
    let ghost h = opt_view(home);
    let r = config_file_location_from(fend_config_dir, xdg_config_home, home);
    assert(path_view(r) == config_file_of(opt_view(fend_config_dir), opt_view(xdg_config_home), h));
    r
}

pub fn history_dir_from(
    fend_state_dir: Option<String>,
    xdg_state_home: Option<String>,
    home: Option<String>,
) -> (r: Option<Vec<String>>)
    ensures
        path_view(r) == history_dir_of(
            opt_view(fend_state_dir),
            opt_view(xdg_state_home),
            opt_view(home),
        ),
{
    let mut res: Vec<String> = Vec::new();
    if let Some(dir) = fend_state_dir {
        res.push(dir);
    } else if let Some(dir) = xdg_state_home {
        res.push(dir);
        res.push(component("fend"));
    } else if let Some(dir) = home {
        res.push(dir);
        res.push(component(".local"));
        res.push(component("state"));
        res.push(component("fend"));
    } else {
        return None;
    }
    proof {
        assert(res.deep_view() =~= history_dir_of(
            opt_view(fend_state_dir),
            opt_view(xdg_state_home),
            opt_view(home),
        )->Some_0);
    }
    Some(res)
}

/// The history directory, given the values of `FEND_STATE_DIR` and
/// `XDG_STATE_HOME`. The home directory is looked up only where both are unset.
pub fn get_history_dir(fend_state_dir: Option<String>, xdg_state_home: Option<String>) -> (r:
    Option<Vec<String>>)
    ensures
        fend_state_dir is Some || xdg_state_home is Some ==> path_view(r) == history_dir_of(
            opt_view(fend_state_dir),
            opt_view(xdg_state_home),
            None,
        ),
        exists|home: Option<Seq<char>>|
            path_view(r) == history_dir_of(
                opt_view(fend_state_dir),
                opt_view(xdg_state_home),
                home,
            ),
{
    let home = if fend_state_dir.is_none() && xdg_state_home.is_none() {
        home_dir()
    } else {
        None
    };
    let ghost h = opt_view(home);
    let r = history_dir_from(fend_state_dir, xdg_state_home, home);
    assert(path_view(r) == history_dir_of(opt_view(fend_state_dir), opt_view(xdg_state_home), h));
    r
}

/// The history file inside a history directory that `get_history_dir` gave
/// and that has been created.
pub fn history_file_location_from(dir: Vec<String>) -> (r: Vec<String>)
    ensures
        r.deep_view() == history_file_of(dir.deep_view()),
{
    let ghost d = dir.deep_view();
    let mut path = dir;
    path.push(component("history"));
    assert(path.deep_view() =~= history_file_of(d));
    path
}

} // verus!
