use wiki::api::mkurl;
use wiki::cases::extract_cases;
use wiki::encode::{encode_multivalue, signed_decimal_string};
use wiki::enum_set::EnumSet;
use wiki::patrol::{recent_changes_request, search_request, RecentChangesPatroller};
use wiki::req::{
    RvProp, AbuseLogProp, Action, Block, Expiry, Limit, ListAbuseLog, ListRc, Main, PageSpec, Parse,
    ParseProp, Query, QueryGenerator, RcProp, RcType, SearchGenerator,
};
use wiki::types::{MwTimestamp, NowableTime};
use wiki::url::{BufferedName, FormFields, PrependAdaptor, Simple, UrlParamWriter, WriteUrlParams, WriteUrlValue};

fn fields_of<P: WriteUrlParams>(p: &P) -> Vec<(String, String)> {
    let mut f = FormFields::new();
    p.ser(&mut f);
    f.fields
}

fn pairs(v: &[(&str, &str)]) -> Vec<(String, String)> {
    v.iter().map(|(a, b)| (a.to_string(), b.to_string())).collect()
}

#[test]
fn cases_split_at_top_level_bars() {
    assert_eq!(extract_cases("a|b(c|d)|e\\|f|g"), vec!["a", "b(c|d)", "e\\|f"]);
    assert_eq!(extract_cases("no bars"), Vec::<&str>::new());
    assert_eq!(extract_cases("|x|"), vec!["", "x"]);
    assert_eq!(extract_cases("ü|é(|)|"), vec!["ü", "é(|)"]);
    assert_eq!(extract_cases("trailing\\"), Vec::<&str>::new());
}

#[test]
fn negative_numbers_and_i32_lists() {
    assert_eq!(signed_decimal_string(-42), "-42");
    assert_eq!(signed_decimal_string(i64::MIN), "-9223372036854775808");
    assert_eq!(signed_decimal_string(7), "7");
    assert_eq!(encode_multivalue(&vec![0i32, -1, 14]), "0|-1|14");
}

#[test]
fn recent_changes_list() {
    let t = MwTimestamp::from_unix(86400).unwrap();
    let rc = ListRc {
        start: Some(NowableTime::Now),
        end: Some(NowableTime::Timestamp(t)),
        limit: Limit::Value(50),
        prop: RcProp::from_bits(RcProp::TITLE | RcProp::LOG_INFO),
        ty: RcType::empty(),
    };
    assert_eq!(
        mkurl("https://w/api.php", recent_changes_request(rc)),
        "https://w/api.php?action=query&list=recentchanges&rcstart=now&rcend=1970-01-02T00%3A00%3A00Z&rclimit=50&rcprop=title%7Cloginfo&format=json&formatversion=2"
    );
}

#[test]
fn abuse_log_list() {
    let l = ListAbuseLog {
        logid: Some(5),
        start: None,
        end: None,
        filter: Some(vec!["12".to_string(), "a|b".to_string()]),
        limit: Limit::Max,
        prop: AbuseLogProp::from_bits(AbuseLogProp::DETAILS),
    };
    assert_eq!(
        fields_of(&l),
        pairs(&[("afllogid", "5"), ("aflfilter", "\u{1F}12\u{1F}a|b"), ("afllimit", "max"), ("aflprop", "details")])
    );
}

#[test]
fn search_generator_request() {
    assert_eq!(
        mkurl("https://w/api.php", search_request("x y".to_string())),
        "https://w/api.php?action=query&list=search&srsearch=x%20y&srlimit=max&format=json&formatversion=2"
    );
    let mut q = Query::new();
    q.generator = Some(QueryGenerator::Search(SearchGenerator { search: "s".to_string(), limit: Limit::Value(3), offset: Some(9) }));
    assert_eq!(
        fields_of(&q),
        pairs(&[("generator", "search"), ("gsrsearch", "s"), ("gsrlimit", "3"), ("gsroffset", "9")])
    );
}

#[test]
fn parse_request() {
    let mut p = Parse::new();
    p.selector = Some(PageSpec::Title("Main Page".to_string()));
    p.prop = ParseProp::from_bits(ParseProp::TEXT | ParseProp::CATEGORIES_HTML);
    p.pst = true;
    assert_eq!(
        fields_of(&Main::action(Action::Parse(p))),
        pairs(&[
            ("action", "parse"),
            ("title", "Main Page"),
            ("prop", "text|categorieshtml"),
            ("pst", ""),
            ("format", "json"),
            ("formatversion", "2"),
        ])
    );
    assert_eq!(Parse::new().prop.bits, ParseProp::DEFAULT);
}

#[test]
fn block_request() {
    let b = Block {
        user: "1.2.3.4".to_string(),
        expiry: Expiry::Never,
        reason: Some("spam".to_string()),
        anononly: true,
        nocreate: false,
        autoblock: false,
        noemail: false,
        hidename: false,
        allowusertalk: true,
        reblock: false,
        watchuser: false,
        watchlistexpiry: None,
        tags: None,
        partial: true,
        pagerestrictions: None,
        namespace_restrictions: Some(vec![0, -1]),
    };
    assert_eq!(
        fields_of(&b),
        pairs(&[
            ("user", "1.2.3.4"),
            ("expiry", "never"),
            ("reason", "spam"),
            ("anononly", ""),
            ("allowusertalk", ""),
            ("partial", ""),
            ("namespacerestrictions", "0|-1"),
        ])
    );
    let b2 = Block { expiry: Expiry::Relative("1 week".to_string()), ..b };
    assert_eq!(fields_of(&b2)[1], ("expiry".to_string(), "1 week".to_string()));
}

#[test]
fn patroller_windows_abut() {
    let mut p = RecentChangesPatroller::new(1000, RcProp::from_bits(RcProp::IDS), RcType::from_bits(RcType::EDIT));
    let first = p.next_round(1060).unwrap();
    assert!(matches!(&first.start, Some(NowableTime::Timestamp(t)) if t.unix_seconds() == 1059));
    assert!(matches!(&first.end, Some(NowableTime::Timestamp(t)) if t.unix_seconds() == 999));
    let second = p.next_round(1120).unwrap();
    assert!(matches!(&second.start, Some(NowableTime::Timestamp(t)) if t.unix_seconds() == 1119));
    assert!(matches!(&second.end, Some(NowableTime::Timestamp(t)) if t.unix_seconds() == 1059));
    assert_eq!(second.prop.bits, RcProp::IDS);
    p.on_error();
    assert!(p.next_round(1180).is_none());
}

#[test]
fn enum_set_from_single() {
    let s = EnumSet::new_one(wiki::req::UserInfoProp::Rights);
    let mut q = Query::new();
    q.meta = Some(EnumSet::new_one(wiki::req::QueryMeta::UserInfo(wiki::req::MetaUserInfo { prop: Some(s) })));
    assert_eq!(fields_of(&q), pairs(&[("meta", "userinfo"), ("uiprop", "rights")]));
}

#[test]
fn empty_lists_and_absent_values_are_left_out() {
    let mut q = Query::new();
    q.titles = Some(Vec::new());
    q.pageids = None;
    q.list = Some(EnumSet::new());
    assert!(fields_of(&q).is_empty());
    let t = RcType::empty();
    let rc = ListRc { start: None, end: None, limit: Limit::Unset, prop: RcProp::empty(), ty: t };
    assert!(fields_of(&rc).is_empty());
}

#[test]
fn works() {
    let mut w = FormFields::new();
    NowableTime::Now.ser(BufferedName::new("time"), &mut w);
    assert_eq!(w.fields, pairs(&[("time", "now")]));
    let t = MwTimestamp::from_unix(-19975323180).unwrap();
    let mut w = FormFields::new();
    NowableTime::Timestamp(t).ser(BufferedName::new("time"), &mut w);
    assert_eq!(w.fields, pairs(&[("time", "1337-01-03T03:07:00Z")]));
}

#[test]
fn prefix_adaptor_over_query_string() {
    let mut p = PrependAdaptor::new(Simple::new(), "cm");
    p.add("title", "Foo");
    assert_eq!(p.into_inner().as_str(), "cmtitle=Foo");
}

#[test]
fn enum_set_from_list_keeps_first_occurrences() {
    let s = EnumSet::from_vec(vec![RvProp::Ids, RvProp::Content, RvProp::Ids, RvProp::User, RvProp::Content]);
    let mut w = FormFields::new();
    s.ser(BufferedName::new("rvprop"), &mut w);
    assert_eq!(w.fields, pairs(&[("rvprop", "ids|content|user")]));
}
