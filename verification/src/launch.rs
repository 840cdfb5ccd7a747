//! How the browser is started for one attempt.

use vstd::prelude::*;
use vstd::string::StringExecFns;
use crate::credentials::LoginCredentials;

verus! {

/// What the browser is started with.
pub struct LaunchPlan {
    /// Whether the browser shows a window.
    pub show_window: bool,
    /// The flags on its command line, in order.
    pub arguments: Vec<String>,
}

/// The flags that every launch carries, in order.
pub open spec fn fixed_flags() -> Seq<Seq<char>> {
    seq![
        "--disable-blink-features=AutomationControlled"@,
        "--disable-web-security"@,
        "--no-sandbox"@,
        "--disable-dev-shm-usage"@,
        "--disable-features=IsolateOrigins,site-per-process"@,
    ]
}

/// The flag that routes the browser through `proxy`.
pub open spec fn proxy_flag(proxy: Seq<char>) -> Seq<char> {
    "--proxy-server="@ + proxy
}

/// The flags of a launch: the fixed ones, then the proxy flag where a proxy is
/// given.
pub open spec fn launch_flags(proxy: Option<Seq<char>>) -> Seq<Seq<char>> {
    match proxy {
        Some(address) => fixed_flags().push(proxy_flag(address)),
        None => fixed_flags(),
    }
}

/// The texts of `flags`, in order.
pub open spec fn flag_texts(flags: Seq<String>) -> Seq<Seq<char>> {
    Seq::new(flags.len(), |i: int| flags[i]@)
}

impl LaunchPlan {
    /// The plan for these credentials: a window unless they ask for none, the
    /// fixed flags, and the proxy flag where they name a proxy.
    pub fn for_credentials(credentials: &LoginCredentials) -> (plan: LaunchPlan)
        ensures
            plan.show_window == !credentials.headless,
            flag_texts(plan.arguments@) == launch_flags(credentials.proxy_text()),
    {
        let mut arguments: Vec<String> = Vec::new();
        arguments.push("--disable-blink-features=AutomationControlled".to_owned());
        arguments.push("--disable-web-security".to_owned());
        arguments.push("--no-sandbox".to_owned());
        arguments.push("--disable-dev-shm-usage".to_owned());
        arguments.push("--disable-features=IsolateOrigins,site-per-process".to_owned());
        assert(flag_texts(arguments@) =~= fixed_flags());
        match &credentials.proxy {
            Some(address) => {
                if !address.as_str().is_empty() {
                    let flag = "--proxy-server=".to_owned().concat(address.as_str());
                    arguments.push(flag);
                    assert(flag_texts(arguments@) =~= fixed_flags().push(proxy_flag(address@)));
                }
            },
            None => {},
        }
        LaunchPlan { show_window: !credentials.headless, arguments }
    }
}

} // verus!
