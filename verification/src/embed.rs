use vstd::prelude::*;

verus! {

/// An embed that a message can be sent with.
#[derive(Debug, Clone)]
pub struct SendableEmbed {
    pub icon_url: Option<String>,
    pub url: Option<String>,
    pub title: Option<String>,
    pub description: Option<String>,
    pub media: Option<String>,
    pub colour: Option<String>,
}

impl SendableEmbed {
    /// An embed with nothing set.
    pub fn new() -> (r: SendableEmbed)
        ensures
            r.icon_url is None,
            r.url is None,
            r.title is None,
            r.description is None,
            r.media is None,
            r.colour is None,
    {
        SendableEmbed { icon_url: None, url: None, title: None, description: None, media: None, colour: None }
    }
}

/// Setters that build an embed step by step.
pub trait EmbedExt: Sized {
    fn icon_url(self, icon_url: String) -> Self;

    fn url(self, url: String) -> Self;

    fn title(self, title: String) -> Self;

    fn description(self, description: String) -> Self;

    fn media(self, media: String) -> Self;

    fn colour(self, colour: String) -> Self;
}

impl EmbedExt for SendableEmbed {
    /// Sets the icon's address.
    fn icon_url(self, icon_url: String) -> (r: Self)
        ensures
            r == (SendableEmbed { icon_url: Some(icon_url), ..self }),
    {
        SendableEmbed { icon_url: Some(icon_url), ..self }
    }

    /// Sets the icon's address as well: the link address is not what this sets.
    fn url(self, url: String) -> (r: Self)
        ensures
            r == (SendableEmbed { icon_url: Some(url), ..self }),
    {
        SendableEmbed { icon_url: Some(url), ..self }
    }

    /// Sets the title.
    fn title(self, title: String) -> (r: Self)
        ensures
            r == (SendableEmbed { title: Some(title), ..self }),
    {
        SendableEmbed { title: Some(title), ..self }
    }

    /// Sets the description.
    fn description(self, description: String) -> (r: Self)
        ensures
            r == (SendableEmbed { description: Some(description), ..self }),
    {
        SendableEmbed { description: Some(description), ..self }
    }

    /// Sets the media's identifier.
    fn media(self, media: String) -> (r: Self)
        ensures
            r == (SendableEmbed { media: Some(media), ..self }),
    {
        SendableEmbed { media: Some(media), ..self }
    }

    /// Sets the colour.
    fn colour(self, colour: String) -> (r: Self)
        ensures
            r == (SendableEmbed { colour: Some(colour), ..self }),
    {
        SendableEmbed { colour: Some(colour), ..self }
    }
}

} // verus!
