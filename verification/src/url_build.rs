use vstd::prelude::*;

verus! {

/// The five parts from which a report URL is assembled, as text.
pub struct UrlParts {
    pub protocol: Seq<char>,
    pub domain: Seq<char>,
    pub results_path: Seq<char>,
    pub repo_name: Seq<char>,
    pub check_path: Seq<char>,
}

/// The parts that `UrlBuilder::new` starts from.
pub open spec fn default_parts() -> UrlParts {
    UrlParts {
        protocol: "https"@,
        domain: "gentooqa.levelnine.at"@,
        results_path: "results"@,
        repo_name: "gentoo"@,
        check_path: "stats/EAC-STA-ebuild_cleanup_candidates"@,
    }
}

/// The URL that the parts describe:
/// `<protocol>://<domain>/<results_path>/<repo_name>/<check_path>/full.txt`.
pub open spec fn url_of(p: UrlParts) -> Seq<char> {
    p.protocol + "://"@ + p.domain + "/"@ + p.results_path + "/"@ + p.repo_name + "/"@
        + p.check_path + "/full.txt"@
}

/// `p` with its protocol replaced.
pub open spec fn with_protocol(p: UrlParts, s: Seq<char>) -> UrlParts {
    UrlParts { protocol: s, ..p }
}

/// `p` with its domain replaced.
pub open spec fn with_domain(p: UrlParts, s: Seq<char>) -> UrlParts {
    UrlParts { domain: s, ..p }
}

/// `p` with its results path replaced.
pub open spec fn with_results_path(p: UrlParts, s: Seq<char>) -> UrlParts {
    UrlParts { results_path: s, ..p }
}

/// `p` with its repository name replaced.
pub open spec fn with_repo_name(p: UrlParts, s: Seq<char>) -> UrlParts {
    UrlParts { repo_name: s, ..p }
}

/// `p` with its check path replaced.
pub open spec fn with_check_path(p: UrlParts, s: Seq<char>) -> UrlParts {
    UrlParts { check_path: s, ..p }
}

/// Builds the URL of a QA report, part by part.
pub struct UrlBuilder {
    protocol: String,
    domain: String,
    results_path: String,
    repo_name: String,
    check_path: String,
}

impl View for UrlBuilder {
    type V = UrlParts;

    closed spec fn view(&self) -> UrlParts {
        UrlParts {
            protocol: self.protocol@,
            domain: self.domain@,
            results_path: self.results_path@,
            repo_name: self.repo_name@,
            check_path: self.check_path@,
        }
    }
}

impl UrlBuilder {
    /// A builder for the ebuild cleanup candidates report of the `gentoo`
    /// repository on `https://gentooqa.levelnine.at`.
    pub fn new() -> (b: Self)
        ensures
            b@ == default_parts(),
    {
        UrlBuilder {
            protocol: "https".to_owned(),
            domain: "gentooqa.levelnine.at".to_owned(),
            results_path: "results".to_owned(),
            repo_name: "gentoo".to_owned(),
            check_path: "stats/EAC-STA-ebuild_cleanup_candidates".to_owned(),
        }
    }

    /// Replaces the protocol (the part before `://`).
    pub fn protocol(self, protocol: &str) -> (b: Self)
        ensures
            b@ == with_protocol(self@, protocol@),
    {
        let mut b = self;
        b.protocol = protocol.to_owned();
        b
    }

    /// Replaces the domain.
    pub fn domain(self, domain: &str) -> (b: Self)
        ensures
            b@ == with_domain(self@, domain@),
    {
        let mut b = self;
        b.domain = domain.to_owned();
        b
    }

    /// Replaces the path of the results directory.
    pub fn results_path(self, results_path: &str) -> (b: Self)
        ensures
            b@ == with_results_path(self@, results_path@),
    {
        let mut b = self;
        b.results_path = results_path.to_owned();
        b
    }

    /// Replaces the name of the repository.
    pub fn repo_name(self, repo_name: &str) -> (b: Self)
        ensures
            b@ == with_repo_name(self@, repo_name@),
    {
        let mut b = self;
        b.repo_name = repo_name.to_owned();
        b
    }

    /// Replaces the path of the check's report.
    pub fn check_path(self, check_path: &str) -> (b: Self)
        ensures
            b@ == with_check_path(self@, check_path@),
    {
        let mut b = self;
        b.check_path = check_path.to_owned();
        b
    }

    /// The URL of the report's full text.
    pub fn build_string(self) -> (s: String)
        ensures
            s@ == url_of(self@),
    {
        self.protocol.concat("://").concat(self.domain.as_str()).concat("/").concat(
            self.results_path.as_str(),
        ).concat("/").concat(self.repo_name.as_str()).concat("/").concat(
            self.check_path.as_str(),
        ).concat("/full.txt")
    }
}

/// Setting a part twice keeps only the second value.
pub proof fn law_last_setting_wins(p: UrlParts, a: Seq<char>, b: Seq<char>)
    ensures
        with_protocol(with_protocol(p, a), b) == with_protocol(p, b),
        with_domain(with_domain(p, a), b) == with_domain(p, b),
        with_results_path(with_results_path(p, a), b) == with_results_path(p, b),
        with_repo_name(with_repo_name(p, a), b) == with_repo_name(p, b),
        with_check_path(with_check_path(p, a), b) == with_check_path(p, b),
{
}

/// Setting two different parts gives the same builder in either order.
pub proof fn law_settings_commute(p: UrlParts, a: Seq<char>, b: Seq<char>)
    ensures
        with_domain(with_protocol(p, a), b) == with_protocol(with_domain(p, b), a),
        with_results_path(with_protocol(p, a), b) == with_protocol(with_results_path(p, b), a),
        with_repo_name(with_protocol(p, a), b) == with_protocol(with_repo_name(p, b), a),
        with_check_path(with_protocol(p, a), b) == with_protocol(with_check_path(p, b), a),
        with_results_path(with_domain(p, a), b) == with_domain(with_results_path(p, b), a),
        with_repo_name(with_domain(p, a), b) == with_domain(with_repo_name(p, b), a),
        with_check_path(with_domain(p, a), b) == with_domain(with_check_path(p, b), a),
        with_repo_name(with_results_path(p, a), b) == with_results_path(with_repo_name(p, b), a),
        with_check_path(with_results_path(p, a), b) == with_results_path(with_check_path(p, b), a),
        with_check_path(with_repo_name(p, a), b) == with_repo_name(with_check_path(p, b), a),
{
}

/// Every built URL starts with the protocol and `://` and ends with
/// `/full.txt`, and is as long as its parts and the separators together.
pub proof fn law_url_frame(p: UrlParts)
    ensures
        url_of(p).subrange(0, p.protocol.len() + 3int) == p.protocol + "://"@,
        url_of(p).subrange(url_of(p).len() - 9int, url_of(p).len() as int) == "/full.txt"@,
        url_of(p).len() == p.protocol.len() + p.domain.len() + p.results_path.len()
            + p.repo_name.len() + p.check_path.len() + 3 + 1 + 1 + 1 + 9,
{
    reveal_strlit("://");
    reveal_strlit("/");
    reveal_strlit("/full.txt");
    let head = p.protocol + "://"@;
    let tail = "/full.txt"@;
    let mid = p.domain + "/"@ + p.results_path + "/"@ + p.repo_name + "/"@ + p.check_path;
    assert(url_of(p) =~= head + mid + tail);
    assert((head + mid + tail).subrange(0, head.len() as int) =~= head);
    assert((head + mid + tail).subrange((head + mid).len() as int, (head + mid + tail).len() as int) =~= tail);
}

/// Each setter stores exactly the text it is given in its own part and leaves
/// every other part as it was.
pub proof fn law_setter_stores_text_verbatim(p: UrlParts, s: Seq<char>)
    ensures
        with_protocol(p, s).protocol == s,
        with_protocol(p, s).domain == p.domain,
        with_protocol(p, s).results_path == p.results_path,
        with_protocol(p, s).repo_name == p.repo_name,
        with_protocol(p, s).check_path == p.check_path,
        with_domain(p, s).domain == s,
        with_domain(p, s).protocol == p.protocol,
        with_domain(p, s).results_path == p.results_path,
        with_domain(p, s).repo_name == p.repo_name,
        with_domain(p, s).check_path == p.check_path,
        with_results_path(p, s).results_path == s,
        with_results_path(p, s).protocol == p.protocol,
        with_results_path(p, s).domain == p.domain,
        with_results_path(p, s).repo_name == p.repo_name,
        with_results_path(p, s).check_path == p.check_path,
        with_repo_name(p, s).repo_name == s,
        with_repo_name(p, s).protocol == p.protocol,
        with_repo_name(p, s).domain == p.domain,
        with_repo_name(p, s).results_path == p.results_path,
        with_repo_name(p, s).check_path == p.check_path,
        with_check_path(p, s).check_path == s,
        with_check_path(p, s).protocol == p.protocol,
        with_check_path(p, s).domain == p.domain,
        with_check_path(p, s).results_path == p.results_path,
        with_check_path(p, s).repo_name == p.repo_name,
{
}

/// The built URL holds every part verbatim at its place: the protocol, then
/// `://`, the domain, `/`, the results path, `/`, the repository name, `/`,
/// the check path and `/full.txt`, with nothing else in between.
pub proof fn law_url_holds_parts_in_place(p: UrlParts)
    ensures
        ({
            let u = url_of(p);
            let d: int = p.protocol.len() + 3int;
            let r: int = d + p.domain.len() + 1;
            let n: int = r + p.results_path.len() + 1;
            let c: int = n + p.repo_name.len() + 1;
            let e: int = c + p.check_path.len();
            &&& u.len() == e + 9
            &&& u.subrange(0, p.protocol.len() as int) == p.protocol
            &&& u[p.protocol.len() as int] == ':' && u[p.protocol.len() + 1int] == '/'
                && u[p.protocol.len() + 2int] == '/'
            &&& u.subrange(d, d + p.domain.len()) == p.domain
            &&& u[r - 1] == '/'
            &&& u.subrange(r, r + p.results_path.len()) == p.results_path
            &&& u[n - 1] == '/'
            &&& u.subrange(n, n + p.repo_name.len()) == p.repo_name
            &&& u[c - 1] == '/'
            &&& u.subrange(c, c + p.check_path.len()) == p.check_path
            &&& u.subrange(e, e + 9) == "/full.txt"@
        }),
{
    reveal_strlit("://");
    reveal_strlit("/");
    reveal_strlit("/full.txt");
    let u = url_of(p);
    let d: int = p.protocol.len() + 3int;
    let r: int = d + p.domain.len() + 1;
    let n: int = r + p.results_path.len() + 1;
    let c: int = n + p.repo_name.len() + 1;
    let e: int = c + p.check_path.len();
    let s1 = p.protocol + "://"@;
    let s2 = s1 + p.domain;
    let s3 = s2 + "/"@;
    let s4 = s3 + p.results_path;
    let s5 = s4 + "/"@;
    let s6 = s5 + p.repo_name;
    let s7 = s6 + "/"@;
    let s8 = s7 + p.check_path;
    assert(u == s8 + "/full.txt"@);
    assert(u.subrange(0, p.protocol.len() as int) =~= p.protocol);
    assert(u.subrange(d, d + p.domain.len()) =~= p.domain);
    assert(u.subrange(r, r + p.results_path.len()) =~= p.results_path);
    assert(u.subrange(n, n + p.repo_name.len()) =~= p.repo_name);
    assert(u.subrange(c, c + p.check_path.len()) =~= p.check_path);
    assert(u.subrange(e, e + 9) =~= "/full.txt"@);
}

} // verus!
