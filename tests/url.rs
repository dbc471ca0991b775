use wiki::api::{build_form, mkurl, mkurl_with_ext};
use wiki::encode::{contains_bar, decimal_string, encode_multivalue, MultiValueEncoder};
use wiki::enum_set::EnumSet;
use wiki::req::{
    Action, CategoryMembersProp, CategoryMembersType, EditBuilder, EditSection, Format, Limit,
    ListCategoryMembers, ListSearch, ListUserContribs, Login, Main, MissingField, PageSpec, Query,
    QueryList, QueryProp, QueryPropRevisions, RvProp, RvSlot, Selector, TokenType,
    UserContribsProp,
};
use wiki::types::MwTimestamp;
use wiki::url::{BufferedName, FormFields, PrependAdaptor, Simple, UrlParamWriter, WriteUrlParams, WriteUrlValue};

fn fields_of<P: WriteUrlParams>(p: &P) -> Vec<(String, String)> {
    let mut f = FormFields::new();
    p.ser(&mut f);
    f.fields
}

fn pairs(v: &[(&str, &str)]) -> Vec<(String, String)> {
    v.iter().map(|(a, b)| (a.to_string(), b.to_string())).collect()
}

#[test]
fn edit() {
    let t = MwTimestamp::from_unix(0).unwrap();
    let main = Main::edit(
        EditBuilder::new()
            .title("title")
            .token("token")
            .bot()
            .appendtext("app")
            .baserevid(0)
            .basetimestamp(t)
            .captchaid("captchaid")
            .captchaword("captchaword")
            .contentformat("ctfmt")
            .contentmodel("ctmd")
            .createonly()
            .md5("md5")
            .new_section("newsection".into())
            .prependtext("prepend")
            .recreate()
            .redirect()
            .tags(vec!["a".into(), "b".into()])
            .build()
            .unwrap(),
    );
    let u = mkurl("https://en.wikipedia.org/w/api.php", main);
    assert_eq!("https://en.wikipedia.org/w/api.php?action=edit&\
    title=title&\
    section=new&\
    sectiontitle=newsection&\
    tags=a%7Cb&\
    bot=&\
    baserevid=0&\
    basetimestamp=1970-01-01T00%3A00%3A00Z&\
    recreate=&\
    createonly=&\
    md5=md5&\
    prependtext=prepend&\
    appendtext=app&\
    redirect=&\
    contentformat=ctfmt&\
    contentmodel=ctmd&\
    token=token&\
    captchaword=captchaword&\
    captchaid=captchaid&\
    format=json&\
    formatversion=2", u)
}

#[test]
fn multivalue_plain_values_join_with_bar() {
    let v = vec!["a".to_string(), "b".to_string()];
    assert_eq!(encode_multivalue(&v), "a|b");
}

#[test]
fn multivalue_bar_in_value_switches_to_unit_separator() {
    let v = vec!["a|x".to_string(), "b".to_string()];
    assert_eq!(encode_multivalue(&v), "\u{1F}a|x\u{1F}b");
}

#[test]
fn multivalue_numbers_and_empty() {
    assert_eq!(encode_multivalue(&vec![1u32, 23, 456]), "1|23|456");
    assert_eq!(encode_multivalue(&Vec::<String>::new()), "");
    assert_eq!(encode_multivalue(&vec!["only".to_string()]), "only");
}

#[test]
fn multivalue_encoder_by_hand() {
    let mut e = MultiValueEncoder::new(true);
    e.push("x");
    e.push("y|z");
    assert_eq!(e.build(), "\u{1F}x\u{1F}y|z");
    let e = MultiValueEncoder::new(false);
    assert_eq!(e.build(), "");
}

#[test]
fn decimal_and_bar_scan() {
    assert_eq!(decimal_string(0), "0");
    assert_eq!(decimal_string(1337), "1337");
    assert_eq!(decimal_string(u64::MAX), "18446744073709551615");
    assert!(contains_bar("a|b"));
    assert!(!contains_bar("ab"));
}

#[test]
fn enum_set_insert_twice_keeps_one() {
    let mut s = EnumSet::new();
    assert!(s.insert(RvProp::Content));
    assert!(s.insert(RvProp::Ids));
    assert!(!s.insert(RvProp::Content));
    assert!(s.insert(RvProp::User));
    assert!(!s.insert(RvProp::Ids));
    let f = {
        let mut w = FormFields::new();
        s.ser(BufferedName::new("rvprop"), &mut w);
        w.fields
    };
    assert_eq!(f, pairs(&[("rvprop", "content|ids|user")]));
}

#[test]
fn enum_set_empty_is_left_out() {
    let s: EnumSet<RvSlot> = EnumSet::new();
    let mut w = FormFields::new();
    s.ser(BufferedName::new("rvslots"), &mut w);
    assert!(w.fields.is_empty());
    let one = EnumSet::new_one(RvSlot::All);
    let mut w = FormFields::new();
    one.ser(BufferedName::new("rvslots"), &mut w);
    assert_eq!(w.fields, pairs(&[("rvslots", "*")]));
}

#[test]
fn flatten_with_prefix_writes_cmtitle() {
    let l = ListCategoryMembers {
        spec: PageSpec::Title("Category:Foo".to_string()),
        limit: Limit::Max,
        ty: CategoryMembersType::from_bits(CategoryMembersType::PAGE | CategoryMembersType::SUBCAT),
        prop: CategoryMembersProp::empty(),
    };
    assert_eq!(
        fields_of(&l),
        pairs(&[("cmtitle", "Category:Foo"), ("cmlimit", "max"), ("cmtype", "page|subcat")])
    );
    let l = ListCategoryMembers { spec: PageSpec::PageId(42), limit: Limit::Value(5), ..l };
    assert_eq!(fields_of(&l)[..2].to_vec(), pairs(&[("cmpageid", "42"), ("cmlimit", "5")]));
}

#[test]
fn user_contribs_selector_is_prefixed() {
    let l = ListUserContribs {
        limit: Limit::Unset,
        selector: Selector::User(vec!["A".to_string(), "B".to_string()]),
        prop: UserContribsProp::from_bits(UserContribsProp::IDS | UserContribsProp::SIZEDIFF),
    };
    assert_eq!(fields_of(&l), pairs(&[("ucuser", "A|B"), ("ucprop", "ids|sizediff")]));
}

#[test]
fn prepend_adaptor_prefixes_names() {
    let mut a = PrependAdaptor::new(FormFields::new(), "sr");
    a.add("search", "x");
    a.add("limit", "max");
    assert_eq!(a.into_inner().fields, pairs(&[("srsearch", "x"), ("srlimit", "max")]));
}

#[test]
fn simple_percent_encodes() {
    let mut q = Simple::new();
    q.add("a b", "c&d");
    q.add("e", "");
    assert_eq!(q.as_str(), "a%20b=c%26d&e=");
}

#[test]
fn query_with_list_and_revisions() {
    let mut list = EnumSet::new();
    list.insert(QueryList::Search(ListSearch { search: "foo bar".to_string(), limit: Limit::Max }));
    let mut rv = EnumSet::new();
    rv.insert(RvProp::Content);
    let mut prop = EnumSet::new();
    prop.insert(QueryProp::Revisions(QueryPropRevisions {
        prop: rv,
        slots: EnumSet::new_one(RvSlot::Main),
        limit: Limit::Value(1),
    }));
    let mut q = Query::new();
    q.list = Some(list);
    q.prop = Some(prop);
    q.pageids = Some(vec![7, 8]);
    assert_eq!(
        fields_of(&Main::query(q)),
        pairs(&[
            ("action", "query"),
            ("list", "search"),
            ("srsearch", "foo bar"),
            ("srlimit", "max"),
            ("prop", "revisions"),
            ("rvprop", "content"),
            ("rvslots", "main"),
            ("rvlimit", "1"),
            ("pageids", "7|8"),
            ("format", "json"),
            ("formatversion", "2"),
        ])
    );
}

#[test]
fn tokens_query_url() {
    let m = Main::tokens(TokenType::from_bits(TokenType::CSRF | TokenType::LOGIN));
    assert_eq!(mkurl("https://x/api.php", m), "https://x/api.php?action=query&meta=tokens&type=csrf%7Clogin&format=json&formatversion=2");
}

#[test]
fn continuation_is_appended_unchanged() {
    let m = Main::tokens(TokenType::from_bits(TokenType::CSRF));
    let ext = pairs(&[("continue", "-||"), ("sroffset", "10")]);
    assert_eq!(
        mkurl_with_ext("https://x/api.php", m, &ext),
        "https://x/api.php?action=query&meta=tokens&type=csrf&format=json&formatversion=2&continue=-%7C%7C&sroffset=10"
    );
}

#[test]
fn login_form_fields() {
    let m = Main::login(Login { name: "u".to_string(), password: "p".to_string(), token: "t+\\".to_string() });
    assert_eq!(
        build_form(&m).fields,
        pairs(&[("action", "login"), ("lgname", "u"), ("lgpassword", "p"), ("lgtoken", "t+\\"), ("format", "json"), ("formatversion", "2")])
    );
}

#[test]
fn formats_and_sections() {
    let mut w = FormFields::new();
    Format::Xml.ser(BufferedName::new("format"), &mut w);
    EditSection::Num(3).ser(BufferedName::new("section"), &mut w);
    EditSection::Custom("x".to_string()).ser(BufferedName::new("section"), &mut w);
    EditSection::New { title: "T".to_string() }.ser_additional_only(&mut w);
    Limit::Unset.ser(BufferedName::new("limit"), &mut w);
    false.ser(BufferedName::new("minor"), &mut w);
    true.ser(BufferedName::new("bot"), &mut w);
    assert_eq!(
        w.fields,
        pairs(&[("format", "xml"), ("section", "3"), ("section", "x"), ("sectiontitle", "T"), ("bot", "")])
    );
    let a = Action::Login(Login { name: String::new(), password: String::new(), token: String::new() });
    assert!(matches!(a, Action::Login(_)));
}

#[test]
fn edit_builder_reports_missing_field() {
    assert_eq!(EditBuilder::new().token("t").build().err(), Some(MissingField::Page));
    assert_eq!(EditBuilder::new().title("x").build().err(), Some(MissingField::Token));
    assert_eq!(EditBuilder::new().build().err(), Some(MissingField::Page));
    assert!(EditBuilder::new().title("x").try_build().is_none());
    let e = EditBuilder::new().page_id(9).token("t").minor().try_build().unwrap();
    assert_eq!(e.spec, PageSpec::PageId(9));
    assert!(e.minor && !e.bot);
    assert_eq!(e.token, "t");
}

#[test]
fn timestamps_format_and_range() {
    let t = MwTimestamp::from_unix(1431648000).unwrap();
    assert_eq!(t.format(), "2015-05-15T00:00:00Z");
    assert_eq!(t.unix_seconds(), 1431648000);
    assert!(MwTimestamp::from_unix(i64::MAX).is_none());
}
