//! User configuration: custom templates grouped by language, and default settings.
use vstd::prelude::*;

verus! {

/// A template the user added.
#[derive(Debug)]
pub struct CustomTemplate {
    pub name: String,
    pub description: String,
    pub content: String,
    pub language: Option<String>,
    pub project_type: Option<String>,
}

/// The view of a `CustomTemplate`.
pub struct TemplateView {
    pub name: Seq<char>,
    pub description: Seq<char>,
    pub content: Seq<char>,
    pub language: Option<Seq<char>>,
    pub project_type: Option<Seq<char>>,
}

/// The view of an optional string.
pub open spec fn opt_view(s: Option<String>) -> Option<Seq<char>> {
    match s {
        Some(s) => Some(s@),
        None => None,
    }
}

impl View for CustomTemplate {
    type V = TemplateView;

    open spec fn view(&self) -> TemplateView {
        TemplateView {
            name: self.name@,
            description: self.description@,
            content: self.content@,
            language: opt_view(self.language),
            project_type: opt_view(self.project_type),
        }
    }
}

fn clone_opt(s: &Option<String>) -> (r: Option<String>)
    ensures
        opt_view(r) == opt_view(*s),
{
    match s {
        Some(x) => Some(x.clone()),
        None => None,
    }
}

impl Clone for CustomTemplate {
    fn clone(&self) -> (r: CustomTemplate)
        ensures
            r@ == self@,
    {
        CustomTemplate {
            name: self.name.clone(),
            description: self.description.clone(),
            content: self.content.clone(),
            language: clone_opt(&self.language),
            project_type: clone_opt(&self.project_type),
        }
    }
}

/// Settings that apply when nothing else is asked for.
#[derive(Clone, Copy, Debug, PartialEq, Eq, Structural)]
pub struct DefaultSettings {
    pub auto_detect: bool,
    pub prefer_typescript: bool,
    pub include_tests: bool,
    pub include_docs: bool,
}

impl Default for DefaultSettings {
    fn default() -> (r: DefaultSettings)
        ensures
            r.auto_detect && r.prefer_typescript && r.include_tests && r.include_docs,
    {
        DefaultSettings {
            auto_detect: true,
            prefer_typescript: true,
            include_tests: true,
            include_docs: true,
        }
    }
}

/// The user configuration. Each group pairs a language with the templates added for it; a
/// lookup by language finds the last group of that language.
#[derive(Debug)]
pub struct Config {
    pub custom_templates: Vec<(String, Vec<CustomTemplate>)>,
    pub default_settings: DefaultSettings,
}

/// The view of the template groups of a configuration.
pub type GroupsView = Seq<(Seq<char>, Seq<TemplateView>)>;

/// The view of a list of templates.
pub open spec fn templates_view(v: Seq<CustomTemplate>) -> Seq<TemplateView> {
    v.map_values(|t: CustomTemplate| t@)
}

/// The view of the template groups `g`.
pub open spec fn groups_view(g: Seq<(String, Vec<CustomTemplate>)>) -> GroupsView {
    g.map_values(|p: (String, Vec<CustomTemplate>)| (p.0@, templates_view(p.1@)))
}

/// Index of the last group of `g` for language `lang`, or -1 where there is none.
pub open spec fn group_index(g: GroupsView, lang: Seq<char>) -> int
    decreases g.len(),
{
    if g.len() == 0 {
        -1
    } else if g.last().0 == lang {
        g.len() - 1
    } else {
        group_index(g.drop_last(), lang)
    }
}

/// The templates kept for language `lang`.
pub open spec fn templates_for_language(g: GroupsView, lang: Seq<char>) -> Seq<TemplateView> {
    if group_index(g, lang) >= 0 {
        g[group_index(g, lang)].1
    } else {
        Seq::empty()
    }
}

/// `g` with `t` added at the end of the group for language `lang`, which is created at the end
/// where there is none.
pub open spec fn with_template(g: GroupsView, lang: Seq<char>, t: TemplateView) -> GroupsView {
    let i = group_index(g, lang);
    if i >= 0 {
        g.update(i, (lang, g[i].1.push(t)))
    } else {
        g.push((lang, seq![t]))
    }
}

proof fn lemma_group_index(g: GroupsView, lang: Seq<char>)
    ensures
        -1 <= group_index(g, lang) < g.len(),
        group_index(g, lang) >= 0 ==> g[group_index(g, lang)].0 == lang,
    decreases g.len(),
{
    if g.len() > 0 && g.last().0 != lang {
        lemma_group_index(g.drop_last(), lang);
    }
}

impl Default for Config {
    fn default() -> (r: Config)
        ensures
            r.custom_templates@.len() == 0,
            r.default_settings.auto_detect && r.default_settings.prefer_typescript
                && r.default_settings.include_tests && r.default_settings.include_docs,
    {
        Config { custom_templates: Vec::new(), default_settings: DefaultSettings::default() }
    }
}

/// Operations on the user configuration.
pub struct ConfigManager;

impl ConfigManager {
    fn find_group(groups: &Vec<(String, Vec<CustomTemplate>)>, lang: &str) -> (r: Option<usize>)
        ensures
            match r {
                Some(i) => i as int == group_index(groups_view(groups@), lang@),
                None => group_index(groups_view(groups@), lang@) == -1,
            },
    {
        let ghost gv = groups_view(groups@);
        let mut i: usize = groups.len();
        proof {
            assert(gv.take(i as int) =~= gv);
        }
        while i > 0
            invariant
                i <= groups@.len(),
                gv == groups_view(groups@),
                group_index(gv, lang@) == group_index(gv.take(i as int), lang@),
            decreases i,
        {
            proof {
                assert(gv.take(i as int).drop_last() =~= gv.take(i - 1));
            }
            if crate::text::str_eq(groups[i - 1].0.as_str(), lang) {
                return Some(i - 1);
            }
            i = i - 1;
        }
        None
    }

    /// Adds a template named `name` for `language` to `config`, at the end of that language's
    /// group.
    pub fn add_custom_template(
        config: &mut Config,
        language: &str,
        name: &str,
        description: &str,
        content: &str,
    )
        ensures
            groups_view(final(config).custom_templates@) == with_template(
                groups_view(old(config).custom_templates@),
                language@,
                TemplateView {
                    name: name@,
                    description: description@,
                    content: content@,
                    language: Some(language@),
                    project_type: None,
                },
            ),
            final(config).default_settings == old(config).default_settings,
    {
        let template = CustomTemplate {
            name: String::from_str(name),
            description: String::from_str(description),
            content: String::from_str(content),
            language: Some(String::from_str(language)),
            project_type: None,
        };
        let ghost g0 = groups_view(config.custom_templates@);
        proof {
            lemma_group_index(g0, language@);
        }
        let found = Self::find_group(&config.custom_templates, language);
        let mut groups: Vec<(String, Vec<CustomTemplate>)> = Vec::new();
        core::mem::swap(&mut config.custom_templates, &mut groups);
        match found {
            Some(i) => {
                let ghost before = groups@;
                let (lang, mut templates) = groups.remove(i);
                let ghost tv = templates@;
                templates.push(template);
                groups.insert(i, (lang, templates));
                proof {
                    assert(templates_view(templates@) =~= templates_view(tv).push(template@));
                    assert(groups@ =~= before.update(i as int, (lang, templates)));
                    assert(groups_view(groups@) =~= with_template(g0, language@, template@));
                }
            },
            None => {
                let ghost before = groups@;
                let mut templates: Vec<CustomTemplate> = Vec::new();
                templates.push(template);
                groups.push((String::from_str(language), templates));
                proof {
                    assert(templates_view(templates@) =~= seq![template@]);
                    assert(groups_view(groups@) =~= with_template(g0, language@, template@));
                }
            },
        }
        config.custom_templates = groups;
    }

    /// The templates `config` keeps for `language`; none where it has no group for it.
    pub fn get_custom_templates_for_language(config: &Config, language: &str) -> (r: Vec<
        CustomTemplate,
    >)
        ensures
            templates_view(r@) == templates_for_language(
                groups_view(config.custom_templates@),
                language@,
            ),
    {
        let ghost g = groups_view(config.custom_templates@);
        proof {
            lemma_group_index(g, language@);
        }
        let mut r: Vec<CustomTemplate> = Vec::new();
        match Self::find_group(&config.custom_templates, language) {
            Some(i) => {
                let group = &config.custom_templates[i].1;
                let mut j: usize = 0;
                while j < group.len()
                    invariant
                        j <= group@.len(),
                        templates_view(r@) =~= templates_view(group@).take(j as int),
                    decreases group@.len() - j,
                {
                    let ghost before = r@;
                    r.push(group[j].clone());
                    proof {
                        assert(templates_view(r@) =~= templates_view(before).push(group@[j as int]@));
                    }
                    j = j + 1;
                }
                proof {
                    assert(templates_view(group@).take(j as int) =~= templates_view(group@));
                    assert(g[i as int].1 == templates_view(group@));
                }
            },
            None => {
                proof {
                    assert(templates_view(r@) =~= Seq::empty());
                }
            },
        }
        r
    }
}

} // verus!
