//! What the template of the home page is given.

use vstd::prelude::*;
use vstd::map::*;
use vstd::string::StringExecFns;
use crate::config::EchoConfig;
use crate::db::{after_epoch_prefix, concat, group_by_day, groups_of, is_day_layout};
use crate::post::EchoPost;
use crate::web::json::{
    config_json,
    config_value,
    days_json,
    days_value,
    json_integer,
    json_object,
    json_of,
    lemma_object_of_three,
    Json,
};
use crate::web::templates::{page_of, page_or_error, TemplateError};

verus! {

/// What the template of the home page is given: the settings, the latest
/// entries laid out by days, and the number of entries in the journal.
#[derive(Debug)]
pub struct EchoHomeContext<'a> {
    pub config: &'a EchoConfig,
    pub posts: Vec<Vec<EchoPost>>,
    pub num_posts: isize,
}

impl<'a> EchoHomeContext<'a> {
    /// The context of a journal with the given settings, whose latest
    /// entries are `latest`, newest first, and which holds `num_posts`
    /// entries in all.
    pub fn new(config: &'a EchoConfig, latest: &Vec<EchoPost>, num_posts: isize) -> (context: Self)
        ensures
            context.config == config,
            context.num_posts == num_posts,
            is_day_layout(groups_of(context.posts@)),
            concat(groups_of(context.posts@)) == after_epoch_prefix(latest@),
    {
        EchoHomeContext { config, posts: group_by_day(latest), num_posts }
    }

    /// How the context is laid out for the templates: an object with the
    /// settings under `config`, the days under `posts` and the number of
    /// entries under `num_posts`.
    pub open spec fn json(self) -> Json {
        Json::Object(
            Map::<Seq<char>, Json>::empty().insert("config"@, config_json(*self.config)).insert(
                "posts"@,
                days_json(self.posts@),
            ).insert("num_posts"@, Json::Integer(self.num_posts as int)),
        )
    }

    /// Lays the context out for the templates.
    pub fn value(&self) -> (v: serde_json::Value)
        ensures
            json_of(v) == self.json(),
    {
        let mut fields: Vec<(String, serde_json::Value)> = Vec::new();
        fields.push((String::from_str("config"), config_value(self.config)));
        fields.push((String::from_str("posts"), days_value(&self.posts)));
        fields.push((String::from_str("num_posts"), json_integer(self.num_posts as i64)));
        proof {
            lemma_object_of_three(fields@);
            reveal_strlit("config");
            reveal_strlit("posts");
            reveal_strlit("num_posts");
            assert("config"@.len() == 6 && "posts"@.len() == 5 && "num_posts"@.len() == 9);
        }
        json_object(fields)
    }

    /// The home page, once the template engine has answered. `rendered`
    /// is what the engine gave when it was asked to render the template
    /// named [`INDEX_TEMPLATE`](crate::web::templates::INDEX_TEMPLATE)
    /// with the data of [`EchoHomeContext::value`]: the page, or the
    /// engine's words for why there is none.
    pub fn compile(&self, rendered: Result<String, String>) -> (r: Result<String, TemplateError>)
        ensures
            r == page_of(rendered),
    {
        page_or_error(rendered)
    }
}

} // verus!
