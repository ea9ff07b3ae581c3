//! Target platforms and the wizard's in-memory session.
use vstd::prelude::*;
use vstd::string::*;
use crate::message::Msg;
use crate::task::Task;
use crate::text::str_eq;

verus! {

/// A packaging backend. `WineUrl` is Wine with a custom tarball URL.
#[derive(Clone, Copy, Debug, PartialEq, Eq, Structural)]
pub enum Platform {
    Linux,
    Wine,
    WineUrl,
    Retroarch,
    Pcsx2,
    Rcps3,
}

/// Identifier of `p` for the packaging tool.
pub open spec fn as_str_spec(p: Platform) -> &'static str {
    match p {
        Platform::Linux => "linux",
        Platform::Wine | Platform::WineUrl => "wine",
        Platform::Retroarch => "retroarch",
        Platform::Pcsx2 => "pcsx2",
        Platform::Rcps3 => "rpcs3",
    }
}

/// The platform that a menu choice names.
pub open spec fn from_str_spec(s: Seq<char>) -> Option<Platform> {
    if s == "linux"@ {
        Some(Platform::Linux)
    } else if s == "wine"@ {
        Some(Platform::Wine)
    } else if s == "wine_url"@ {
        Some(Platform::WineUrl)
    } else if s == "retroarch"@ {
        Some(Platform::Retroarch)
    } else if s == "pcsx2"@ {
        Some(Platform::Pcsx2)
    } else if s == "rpcs3"@ {
        Some(Platform::Rcps3)
    } else {
        None
    }
}

impl Platform {
    pub fn as_str(&self) -> (r: &'static str)
        ensures
            r == as_str_spec(*self),
    {
        match self {
            Platform::Linux => "linux",
            Platform::Wine | Platform::WineUrl => "wine",
            Platform::Retroarch => "retroarch",
            Platform::Pcsx2 => "pcsx2",
            Platform::Rcps3 => "rpcs3",
        }
    }

    pub fn from_str(src: &str) -> (r: Option<Platform>)
        ensures
            r == from_str_spec(src@),
    {
        if str_eq(src, "linux") {
            Some(Platform::Linux)
        } else if str_eq(src, "wine") {
            Some(Platform::Wine)
        } else if str_eq(src, "wine_url") {
            Some(Platform::WineUrl)
        } else if str_eq(src, "retroarch") {
            Some(Platform::Retroarch)
        } else if str_eq(src, "pcsx2") {
            Some(Platform::Pcsx2)
        } else if str_eq(src, "rpcs3") {
            Some(Platform::Rcps3)
        } else {
            None
        }
    }
}

/// Every platform but the custom-URL variant is read back from its identifier.
pub proof fn lemma_platform_round_trip(p: Platform)
    requires
        p != Platform::WineUrl,
    ensures
        from_str_spec(as_str_spec(p)@) == Some(p),
{
    reveal_strlit("linux");
    reveal_strlit("wine");
    reveal_strlit("wine_url");
    reveal_strlit("retroarch");
    reveal_strlit("pcsx2");
    reveal_strlit("rpcs3");
    assert("linux"@[0] != "pcsx2"@[0] && "linux"@[0] != "rpcs3"@[0]);
    assert("pcsx2"@[0] != "rpcs3"@[0]);
    assert("wine"@.len() != "linux"@.len() && "wine"@.len() != "wine_url"@.len());
    assert("retroarch"@.len() != "linux"@.len() && "retroarch"@.len() != "wine"@.len());
    assert("retroarch"@.len() != "wine_url"@.len());
    assert("pcsx2"@.len() != "wine"@.len() && "pcsx2"@.len() != "wine_url"@.len());
    assert("pcsx2"@.len() != "retroarch"@.len());
    assert("rpcs3"@.len() != "wine"@.len() && "rpcs3"@.len() != "wine_url"@.len());
    assert("rpcs3"@.len() != "retroarch"@.len());
}

pub open spec fn opt_view(o: Option<String>) -> Option<Seq<char>> {
    match o {
        Some(s) => Some(s@),
        None => None,
    }
}

/// Abstract state of a session.
pub struct SessionView {
    pub platform: Option<Platform>,
    pub url: Option<Seq<char>>,
    pub fetch_url_env: Option<Seq<char>>,
    pub wine_dist: Option<Seq<char>>,
    pub year: u32,
    pub query: Seq<char>,
}

/// The session after platform `p` is chosen: leaving the custom-URL variant
/// forgets the URL and what it placed in the environment.
pub open spec fn select_spec(s: SessionView, p: Platform) -> SessionView {
    if p == Platform::WineUrl {
        SessionView { platform: Some(p), ..s }
    } else {
        SessionView { platform: Some(p), url: None, fetch_url_env: None, ..s }
    }
}

/// The session after URL `u` is typed: kept only on the custom-URL variant.
pub open spec fn set_url_spec(s: SessionView, u: Seq<char>) -> SessionView {
    if s.platform == Some(Platform::WineUrl) {
        SessionView { url: Some(u), ..s }
    } else {
        s
    }
}

/// Arguments of the packaging tool that list the files to fetch for `p`.
pub open spec fn fetch_args_spec(p: Platform, url: Option<Seq<char>>) -> Seq<Seq<char>> {
    let base = seq!["fetch"@, "--platform="@ + as_str_spec(p)@, "--json=gameimage.fetch.json"@];
    match url {
        Some(u) => base.push("--url-dwarfs="@ + u),
        None => base,
    }
}

/// Why the fetch cannot start.
#[derive(Clone, Copy, Debug, PartialEq, Eq, Structural)]
pub enum SessionError {
    /// No platform was chosen.
    NoPlatform,
}

/// The wizard's in-memory choices. They survive screen rebuilds and are reset
/// only where the navigation says so.
pub struct Session {
    pub platform: Option<Platform>,
    /// Custom Wine tarball URL; held only while `WineUrl` is chosen.
    pub url: Option<String>,
    /// The URL as handed to the packaging tool's environment.
    pub fetch_url_env: Option<String>,
    /// Wine distribution chosen on the platform screen.
    pub wine_dist: Option<String>,
    /// Release year for the library recommendation.
    pub year: u32,
    /// Filter over the installed executables.
    pub query: String,
}

impl Session {
    pub open spec fn view(&self) -> SessionView {
        SessionView {
            platform: self.platform,
            url: opt_view(self.url),
            fetch_url_env: opt_view(self.fetch_url_env),
            wine_dist: opt_view(self.wine_dist),
            year: self.year,
            query: self.query@,
        }
    }

    /// A URL, stored or in the environment, exists only for `WineUrl`.
    pub open spec fn wf(&self) -> bool {
        (self.url is Some || self.fetch_url_env is Some) ==> self.platform == Some(
            Platform::WineUrl,
        )
    }

    /// A fresh session: no platform, no URL, year 2024, empty filter.
    pub fn new() -> (r: Session)
        ensures
            r.wf(),
            r.view() == (SessionView {
                platform: None,
                url: None,
                fetch_url_env: None,
                wine_dist: None,
                year: 2024,
                query: Seq::empty(),
            }),
    {
        Session {
            platform: None,
            url: None,
            fetch_url_env: None,
            wine_dist: None,
            year: 2024,
            query: String::new(),
        }
    }

    /// Chooses the platform named by a menu entry; a name that is no platform
    /// changes nothing. Returns whether the choice was taken.
    pub fn select_platform(&mut self, choice: &str) -> (r: bool)
        requires
            old(self).wf(),
        ensures
            final(self).wf(),
            r == (from_str_spec(choice@) is Some),
            r ==> final(self).view() == select_spec(
                old(self).view(),
                from_str_spec(choice@).unwrap(),
            ),
            !r ==> final(self).view() == old(self).view(),
    {
        match Platform::from_str(choice) {
            Some(p) => {
                self.platform = Some(p);
                if p != Platform::WineUrl {
                    self.url = None;
                    self.fetch_url_env = None;
                }
                true
            },
            None => false,
        }
    }

    /// Stores the custom URL typed on the platform screen.
    pub fn set_url(&mut self, u: String)
        requires
            old(self).wf(),
        ensures
            final(self).wf(),
            final(self).view() == set_url_spec(old(self).view(), u@),
    {
        if self.platform == Some(Platform::WineUrl) {
            self.url = Some(u);
        }
    }

    /// Stores the Wine distribution chosen on the platform screen.
    pub fn set_wine_dist(&mut self, dist: String)
        requires
            old(self).wf(),
        ensures
            final(self).wf(),
            final(self).view() == (SessionView { wine_dist: Some(dist@), ..old(self).view() }),
    {
        self.wine_dist = Some(dist);
    }

    /// Stores the release year chosen on the library screen.
    pub fn set_year(&mut self, year: u32)
        requires
            old(self).wf(),
        ensures
            final(self).wf(),
            final(self).view() == (SessionView { year, ..old(self).view() }),
    {
        self.year = year;
    }

    /// A key typed in the search box of the executables screen. The query is
    /// taken, and the list is to be redrawn, on Enter or once the box is empty.
    pub fn update_query(&mut self, value: String, enter: bool) -> (r: bool)
        requires
            old(self).wf(),
        ensures
            final(self).wf(),
            r == (enter || value@.len() == 0),
            r ==> final(self).view() == (SessionView { query: value@, ..old(self).view() }),
            !r ==> final(self).view() == old(self).view(),
    {
        if enter || value.as_str().unicode_len() == 0 {
            self.query = value;
            true
        } else {
            false
        }
    }

    /// Called as the platform screen is built: Wine without a chosen
    /// distribution gets the default one.
    pub fn enter_platform_screen(&mut self)
        requires
            old(self).wf(),
        ensures
            final(self).wf(),
            final(self).view() == if old(self).platform == Some(Platform::Wine)
                && old(self).wine_dist is None {
                SessionView { wine_dist: Some("default"@), ..old(self).view() }
            } else {
                old(self).view()
            },
    {
        if self.platform == Some(Platform::Wine) && self.wine_dist.is_none() {
            self.wine_dist = Some(String::from_str("default"));
        }
    }

    /// The task behind "next" on the platform screen: ask the packaging tool
    /// for the files of the chosen platform, then show the fetch screen. The
    /// custom URL, if any, is handed on and placed in the environment.
    pub fn fetch_task(&mut self) -> (r: Result<Task, SessionError>)
        requires
            old(self).wf(),
        ensures
            final(self).wf(),
            old(self).platform is None <==> r is Err,
            old(self).platform is None ==> final(self).view() == old(self).view(),
            old(self).platform is Some ==> {
                &&& final(self).view() == (SessionView {
                    fetch_url_env: if old(self).url is Some {
                        opt_view(old(self).url)
                    } else {
                        old(self).view().fetch_url_env
                    },
                    ..old(self).view()
                })
                &&& r is Ok
                &&& r.unwrap().next == Some(Msg::DrawFetch)
                &&& r.unwrap().commands@.len() == 1
                &&& r.unwrap().commands@[0]@.map_values(|a: String| a@) == fetch_args_spec(
                    old(self).platform.unwrap(),
                    opt_view(old(self).url),
                )
            },
    {
        let p = match self.platform {
            Some(p) => p,
            None => {
                return Err(SessionError::NoPlatform);
            },
        };
        let mut arg_platform = String::from_str("--platform=");
        arg_platform.append(p.as_str());
        let mut args: Vec<String> = Vec::new();
        args.push(String::from_str("fetch"));
        args.push(arg_platform);
        args.push(String::from_str("--json=gameimage.fetch.json"));
        match &self.url {
            Some(u) => {
                let mut arg_url = String::from_str("--url-dwarfs=");
                arg_url.append(u.as_str());
                args.push(arg_url);
                self.fetch_url_env = Some(u.clone());
            },
            None => {},
        }
        let ghost expected = fetch_args_spec(p, opt_view(self.url));
        assert(args@.map_values(|a: String| a@) =~= expected);
        let mut commands: Vec<Vec<String>> = Vec::new();
        commands.push(args);
        Ok(Task { commands, next: Some(Msg::DrawFetch), keep_going: false })
    }
}

/// Choosing the custom-URL variant and typing a URL, then choosing any other
/// platform, clears the URL and its environment entry; choosing the variant
/// again does not bring the old URL back.
pub proof fn lemma_switching_platform_clears_url(s: SessionView, u: Seq<char>, other: Platform)
    requires
        other != Platform::WineUrl,
    ensures
        set_url_spec(select_spec(s, Platform::WineUrl), u).url == Some(u),
        select_spec(set_url_spec(select_spec(s, Platform::WineUrl), u), other).url is None,
        select_spec(
            set_url_spec(select_spec(s, Platform::WineUrl), u),
            other,
        ).fetch_url_env is None,
        select_spec(
            select_spec(set_url_spec(select_spec(s, Platform::WineUrl), u), other),
            Platform::WineUrl,
        ).url is None,
        select_spec(
            select_spec(set_url_spec(select_spec(s, Platform::WineUrl), u), other),
            Platform::WineUrl,
        ).fetch_url_env is None,
{
}

} // verus!
