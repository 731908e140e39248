//! The fonts, weights, sizes and line heights of the texts, by the part that a text plays.
//!
//! Sizes are in hundredths of a pixel, line heights in hundredths of the size.

use vstd::prelude::*;

verus! {

/// A family of fonts that comes with the application.
#[derive(Debug, Clone, Copy, PartialEq, Eq, Structural, Hash)]
pub enum FontFamilyKey {
    InterTight,
    PublicSans,
    Figtree,
    JetBrainsMono,
    Raleway,
}

/// The weight of a font.
#[derive(Debug, Clone, Copy, PartialEq, Eq, Structural, Hash)]
pub enum FontWeightKey {
    Normal,
    Semibold,
    Bold,
    ExtraBold,
}

/// The part that a text plays.
#[derive(Debug, Clone, Copy, PartialEq, Eq, Structural, Hash)]
pub enum TypeRole {
    DisplayHeading,
    PageTitle,
    SectionTitle,
    CardTitle,
    Body,
    BodyEmphasised,
    ButtonLabel,
    SupportingText,
    Metadata,
    ChatMessage,
    ChatSender,
    ChatMetadata,
    ComposerText,
    TechnicalValue,
    BrandWordmark,
}

impl TypeRole {
    /// The family of the part, at first.
    pub open spec fn spec_family_key(self) -> FontFamilyKey {
        match self {
            TypeRole::DisplayHeading => FontFamilyKey::InterTight,
            TypeRole::PageTitle => FontFamilyKey::InterTight,
            TypeRole::SectionTitle => FontFamilyKey::PublicSans,
            TypeRole::CardTitle => FontFamilyKey::PublicSans,
            TypeRole::Body => FontFamilyKey::PublicSans,
            TypeRole::BodyEmphasised => FontFamilyKey::PublicSans,
            TypeRole::ButtonLabel => FontFamilyKey::PublicSans,
            TypeRole::SupportingText => FontFamilyKey::PublicSans,
            TypeRole::Metadata => FontFamilyKey::PublicSans,
            TypeRole::ChatMessage => FontFamilyKey::Figtree,
            TypeRole::ChatSender => FontFamilyKey::Figtree,
            TypeRole::ChatMetadata => FontFamilyKey::Figtree,
            TypeRole::ComposerText => FontFamilyKey::Figtree,
            TypeRole::TechnicalValue => FontFamilyKey::JetBrainsMono,
            TypeRole::BrandWordmark => FontFamilyKey::Raleway,
        }
    }

    /// The family of the part, at first.
    pub fn family_key(self) -> (value: FontFamilyKey)
        ensures
            value == self.spec_family_key(),
    {
        match self {
            TypeRole::DisplayHeading => FontFamilyKey::InterTight,
            TypeRole::PageTitle => FontFamilyKey::InterTight,
            TypeRole::SectionTitle => FontFamilyKey::PublicSans,
            TypeRole::CardTitle => FontFamilyKey::PublicSans,
            TypeRole::Body => FontFamilyKey::PublicSans,
            TypeRole::BodyEmphasised => FontFamilyKey::PublicSans,
            TypeRole::ButtonLabel => FontFamilyKey::PublicSans,
            TypeRole::SupportingText => FontFamilyKey::PublicSans,
            TypeRole::Metadata => FontFamilyKey::PublicSans,
            TypeRole::ChatMessage => FontFamilyKey::Figtree,
            TypeRole::ChatSender => FontFamilyKey::Figtree,
            TypeRole::ChatMetadata => FontFamilyKey::Figtree,
            TypeRole::ComposerText => FontFamilyKey::Figtree,
            TypeRole::TechnicalValue => FontFamilyKey::JetBrainsMono,
            TypeRole::BrandWordmark => FontFamilyKey::Raleway,
        }
    }

    /// The weight of the part, at first.
    pub open spec fn spec_weight_key(self) -> FontWeightKey {
        match self {
            TypeRole::DisplayHeading => FontWeightKey::Bold,
            TypeRole::PageTitle => FontWeightKey::Bold,
            TypeRole::SectionTitle => FontWeightKey::Semibold,
            TypeRole::CardTitle => FontWeightKey::Semibold,
            TypeRole::Body => FontWeightKey::Normal,
            TypeRole::BodyEmphasised => FontWeightKey::Semibold,
            TypeRole::ButtonLabel => FontWeightKey::Semibold,
            TypeRole::SupportingText => FontWeightKey::Normal,
            TypeRole::Metadata => FontWeightKey::Normal,
            TypeRole::ChatMessage => FontWeightKey::Normal,
            TypeRole::ChatSender => FontWeightKey::Semibold,
            TypeRole::ChatMetadata => FontWeightKey::Normal,
            TypeRole::ComposerText => FontWeightKey::Normal,
            TypeRole::TechnicalValue => FontWeightKey::Normal,
            TypeRole::BrandWordmark => FontWeightKey::ExtraBold,
        }
    }

    /// The weight of the part, at first.
    pub fn weight_key(self) -> (value: FontWeightKey)
        ensures
            value == self.spec_weight_key(),
    {
        match self {
            TypeRole::DisplayHeading => FontWeightKey::Bold,
            TypeRole::PageTitle => FontWeightKey::Bold,
            TypeRole::SectionTitle => FontWeightKey::Semibold,
            TypeRole::CardTitle => FontWeightKey::Semibold,
            TypeRole::Body => FontWeightKey::Normal,
            TypeRole::BodyEmphasised => FontWeightKey::Semibold,
            TypeRole::ButtonLabel => FontWeightKey::Semibold,
            TypeRole::SupportingText => FontWeightKey::Normal,
            TypeRole::Metadata => FontWeightKey::Normal,
            TypeRole::ChatMessage => FontWeightKey::Normal,
            TypeRole::ChatSender => FontWeightKey::Semibold,
            TypeRole::ChatMetadata => FontWeightKey::Normal,
            TypeRole::ComposerText => FontWeightKey::Normal,
            TypeRole::TechnicalValue => FontWeightKey::Normal,
            TypeRole::BrandWordmark => FontWeightKey::ExtraBold,
        }
    }

    /// The size of the part, at first.
    pub open spec fn spec_size_px(self) -> u32 {
        match self {
            TypeRole::DisplayHeading => 3200,
            TypeRole::PageTitle => 2800,
            TypeRole::SectionTitle => 2000,
            TypeRole::CardTitle => 1800,
            TypeRole::Body => 1500,
            TypeRole::BodyEmphasised => 1500,
            TypeRole::ButtonLabel => 1400,
            TypeRole::SupportingText => 1300,
            TypeRole::Metadata => 1200,
            TypeRole::ChatMessage => 1500,
            TypeRole::ChatSender => 1400,
            TypeRole::ChatMetadata => 1200,
            TypeRole::ComposerText => 1500,
            TypeRole::TechnicalValue => 1200,
            TypeRole::BrandWordmark => 2800,
        }
    }

    /// The size of the part, at first.
    pub fn size_px(self) -> (value: u32)
        ensures
            value == self.spec_size_px(),
    {
        match self {
            TypeRole::DisplayHeading => 3200,
            TypeRole::PageTitle => 2800,
            TypeRole::SectionTitle => 2000,
            TypeRole::CardTitle => 1800,
            TypeRole::Body => 1500,
            TypeRole::BodyEmphasised => 1500,
            TypeRole::ButtonLabel => 1400,
            TypeRole::SupportingText => 1300,
            TypeRole::Metadata => 1200,
            TypeRole::ChatMessage => 1500,
            TypeRole::ChatSender => 1400,
            TypeRole::ChatMetadata => 1200,
            TypeRole::ComposerText => 1500,
            TypeRole::TechnicalValue => 1200,
            TypeRole::BrandWordmark => 2800,
        }
    }

    /// The line height of the part, at first.
    pub open spec fn spec_default_line_height(self) -> u32 {
        match self {
            TypeRole::DisplayHeading => 120,
            TypeRole::PageTitle => 130,
            TypeRole::SectionTitle => 130,
            TypeRole::CardTitle => 130,
            TypeRole::Body => 130,
            TypeRole::BodyEmphasised => 130,
            TypeRole::ButtonLabel => 130,
            TypeRole::SupportingText => 130,
            TypeRole::Metadata => 130,
            TypeRole::ChatMessage => 145,
            TypeRole::ChatSender => 130,
            TypeRole::ChatMetadata => 130,
            TypeRole::ComposerText => 130,
            TypeRole::TechnicalValue => 130,
            TypeRole::BrandWordmark => 130,
        }
    }

    /// The line height of the part, at first.
    pub fn default_line_height(self) -> (value: u32)
        ensures
            value == self.spec_default_line_height(),
    {
        match self {
            TypeRole::DisplayHeading => 120,
            TypeRole::PageTitle => 130,
            TypeRole::SectionTitle => 130,
            TypeRole::CardTitle => 130,
            TypeRole::Body => 130,
            TypeRole::BodyEmphasised => 130,
            TypeRole::ButtonLabel => 130,
            TypeRole::SupportingText => 130,
            TypeRole::Metadata => 130,
            TypeRole::ChatMessage => 145,
            TypeRole::ChatSender => 130,
            TypeRole::ChatMetadata => 130,
            TypeRole::ComposerText => 130,
            TypeRole::TechnicalValue => 130,
            TypeRole::BrandWordmark => 130,
        }
    }
}

/// How the texts are set.
#[derive(Debug, Clone, Copy, PartialEq, Eq, Structural)]
pub struct TypographyTokens {
    pub display_heading: u32,
    pub page_title: u32,
    pub section_title: u32,
    pub card_title: u32,
    pub body: u32,
    pub body_emphasised: u32,
    pub button_label: u32,
    pub supporting_text: u32,
    pub metadata: u32,
    pub chat_message: u32,
    pub chat_sender: u32,
    pub chat_metadata: u32,
    pub composer_text: u32,
    pub technical_value: u32,
    pub brand_wordmark: u32,
    pub home_subtitle: u32,
    pub dialog_title: u32,
    pub dialog_subtitle: u32,
    pub sidebar_name: u32,
    pub section_label: u32,
    pub badge: u32,
    pub call_name: u32,
    pub call_name_active: u32,
    pub call_remote_name: u32,
    pub call_status: u32,
    pub call_duration: u32,
    pub call_avatar_glyph: u32,
    pub call_avatar_glyph_large: u32,
    pub call_pip_label: u32,
    pub display_family: FontFamilyKey,
    pub ui_family: FontFamilyKey,
    pub chat_family: FontFamilyKey,
    pub technical_family: FontFamilyKey,
    pub brand_family: FontFamilyKey,
    pub display_heading_weight: FontWeightKey,
    pub page_title_weight: FontWeightKey,
    pub section_title_weight: FontWeightKey,
    pub card_title_weight: FontWeightKey,
    pub body_weight: FontWeightKey,
    pub body_emphasised_weight: FontWeightKey,
    pub button_label_weight: FontWeightKey,
    pub supporting_text_weight: FontWeightKey,
    pub metadata_weight: FontWeightKey,
    pub chat_message_weight: FontWeightKey,
    pub chat_sender_weight: FontWeightKey,
    pub chat_metadata_weight: FontWeightKey,
    pub composer_text_weight: FontWeightKey,
    pub technical_value_weight: FontWeightKey,
    pub brand_wordmark_weight: FontWeightKey,
    pub display_heading_line_height: u32,
    pub page_title_line_height: u32,
    pub section_title_line_height: u32,
    pub card_title_line_height: u32,
    pub body_line_height: u32,
    pub body_emphasised_line_height: u32,
    pub button_label_line_height: u32,
    pub supporting_text_line_height: u32,
    pub metadata_line_height: u32,
    pub chat_message_line_height: u32,
    pub chat_sender_line_height: u32,
    pub chat_metadata_line_height: u32,
    pub composer_text_line_height: u32,
    pub technical_value_line_height: u32,
    pub brand_wordmark_line_height: u32,
}

impl TypographyTokens {
    /// The family of a part.
    pub open spec fn spec_family_for(&self, role: TypeRole) -> FontFamilyKey {
        match role {
            TypeRole::DisplayHeading => self.display_family,
            TypeRole::PageTitle => self.display_family,
            TypeRole::SectionTitle => self.ui_family,
            TypeRole::CardTitle => self.ui_family,
            TypeRole::Body => self.ui_family,
            TypeRole::BodyEmphasised => self.ui_family,
            TypeRole::ButtonLabel => self.ui_family,
            TypeRole::SupportingText => self.ui_family,
            TypeRole::Metadata => self.ui_family,
            TypeRole::ChatMessage => self.chat_family,
            TypeRole::ChatSender => self.chat_family,
            TypeRole::ChatMetadata => self.chat_family,
            TypeRole::ComposerText => self.chat_family,
            TypeRole::TechnicalValue => self.technical_family,
            TypeRole::BrandWordmark => self.brand_family,
        }
    }

    /// The family of a part.
    pub fn family_for(&self, role: TypeRole) -> (value: FontFamilyKey)
        ensures
            value == self.spec_family_for(role),
    {
        match role {
            TypeRole::DisplayHeading => self.display_family,
            TypeRole::PageTitle => self.display_family,
            TypeRole::SectionTitle => self.ui_family,
            TypeRole::CardTitle => self.ui_family,
            TypeRole::Body => self.ui_family,
            TypeRole::BodyEmphasised => self.ui_family,
            TypeRole::ButtonLabel => self.ui_family,
            TypeRole::SupportingText => self.ui_family,
            TypeRole::Metadata => self.ui_family,
            TypeRole::ChatMessage => self.chat_family,
            TypeRole::ChatSender => self.chat_family,
            TypeRole::ChatMetadata => self.chat_family,
            TypeRole::ComposerText => self.chat_family,
            TypeRole::TechnicalValue => self.technical_family,
            TypeRole::BrandWordmark => self.brand_family,
        }
    }

    /// The weight of a part.
    pub open spec fn spec_weight_for(&self, role: TypeRole) -> FontWeightKey {
        match role {
            TypeRole::DisplayHeading => self.display_heading_weight,
            TypeRole::PageTitle => self.page_title_weight,
            TypeRole::SectionTitle => self.section_title_weight,
            TypeRole::CardTitle => self.card_title_weight,
            TypeRole::Body => self.body_weight,
            TypeRole::BodyEmphasised => self.body_emphasised_weight,
            TypeRole::ButtonLabel => self.button_label_weight,
            TypeRole::SupportingText => self.supporting_text_weight,
            TypeRole::Metadata => self.metadata_weight,
            TypeRole::ChatMessage => self.chat_message_weight,
            TypeRole::ChatSender => self.chat_sender_weight,
            TypeRole::ChatMetadata => self.chat_metadata_weight,
            TypeRole::ComposerText => self.composer_text_weight,
            TypeRole::TechnicalValue => self.technical_value_weight,
            TypeRole::BrandWordmark => self.brand_wordmark_weight,
        }
    }

    /// The weight of a part.
    pub fn weight_for(&self, role: TypeRole) -> (value: FontWeightKey)
        ensures
            value == self.spec_weight_for(role),
    {
        match role {
            TypeRole::DisplayHeading => self.display_heading_weight,
            TypeRole::PageTitle => self.page_title_weight,
            TypeRole::SectionTitle => self.section_title_weight,
            TypeRole::CardTitle => self.card_title_weight,
            TypeRole::Body => self.body_weight,
            TypeRole::BodyEmphasised => self.body_emphasised_weight,
            TypeRole::ButtonLabel => self.button_label_weight,
            TypeRole::SupportingText => self.supporting_text_weight,
            TypeRole::Metadata => self.metadata_weight,
            TypeRole::ChatMessage => self.chat_message_weight,
            TypeRole::ChatSender => self.chat_sender_weight,
            TypeRole::ChatMetadata => self.chat_metadata_weight,
            TypeRole::ComposerText => self.composer_text_weight,
            TypeRole::TechnicalValue => self.technical_value_weight,
            TypeRole::BrandWordmark => self.brand_wordmark_weight,
        }
    }

    /// The size of a part.
    pub open spec fn spec_size_for(&self, role: TypeRole) -> u32 {
        match role {
            TypeRole::DisplayHeading => self.display_heading,
            TypeRole::PageTitle => self.page_title,
            TypeRole::SectionTitle => self.section_title,
            TypeRole::CardTitle => self.card_title,
            TypeRole::Body => self.body,
            TypeRole::BodyEmphasised => self.body_emphasised,
            TypeRole::ButtonLabel => self.button_label,
            TypeRole::SupportingText => self.supporting_text,
            TypeRole::Metadata => self.metadata,
            TypeRole::ChatMessage => self.chat_message,
            TypeRole::ChatSender => self.chat_sender,
            TypeRole::ChatMetadata => self.chat_metadata,
            TypeRole::ComposerText => self.composer_text,
            TypeRole::TechnicalValue => self.technical_value,
            TypeRole::BrandWordmark => self.brand_wordmark,
        }
    }

    /// The size of a part.
    pub fn size_for(&self, role: TypeRole) -> (value: u32)
        ensures
            value == self.spec_size_for(role),
    {
        match role {
            TypeRole::DisplayHeading => self.display_heading,
            TypeRole::PageTitle => self.page_title,
            TypeRole::SectionTitle => self.section_title,
            TypeRole::CardTitle => self.card_title,
            TypeRole::Body => self.body,
            TypeRole::BodyEmphasised => self.body_emphasised,
            TypeRole::ButtonLabel => self.button_label,
            TypeRole::SupportingText => self.supporting_text,
            TypeRole::Metadata => self.metadata,
            TypeRole::ChatMessage => self.chat_message,
            TypeRole::ChatSender => self.chat_sender,
            TypeRole::ChatMetadata => self.chat_metadata,
            TypeRole::ComposerText => self.composer_text,
            TypeRole::TechnicalValue => self.technical_value,
            TypeRole::BrandWordmark => self.brand_wordmark,
        }
    }

    /// The line height of a part.
    pub open spec fn spec_line_height_for(&self, role: TypeRole) -> u32 {
        match role {
            TypeRole::DisplayHeading => self.display_heading_line_height,
            TypeRole::PageTitle => self.page_title_line_height,
            TypeRole::SectionTitle => self.section_title_line_height,
            TypeRole::CardTitle => self.card_title_line_height,
            TypeRole::Body => self.body_line_height,
            TypeRole::BodyEmphasised => self.body_emphasised_line_height,
            TypeRole::ButtonLabel => self.button_label_line_height,
            TypeRole::SupportingText => self.supporting_text_line_height,
            TypeRole::Metadata => self.metadata_line_height,
            TypeRole::ChatMessage => self.chat_message_line_height,
            TypeRole::ChatSender => self.chat_sender_line_height,
            TypeRole::ChatMetadata => self.chat_metadata_line_height,
            TypeRole::ComposerText => self.composer_text_line_height,
            TypeRole::TechnicalValue => self.technical_value_line_height,
            TypeRole::BrandWordmark => self.brand_wordmark_line_height,
        }
    }

    /// The line height of a part.
    pub fn line_height_for(&self, role: TypeRole) -> (value: u32)
        ensures
            value == self.spec_line_height_for(role),
    {
        match role {
            TypeRole::DisplayHeading => self.display_heading_line_height,
            TypeRole::PageTitle => self.page_title_line_height,
            TypeRole::SectionTitle => self.section_title_line_height,
            TypeRole::CardTitle => self.card_title_line_height,
            TypeRole::Body => self.body_line_height,
            TypeRole::BodyEmphasised => self.body_emphasised_line_height,
            TypeRole::ButtonLabel => self.button_label_line_height,
            TypeRole::SupportingText => self.supporting_text_line_height,
            TypeRole::Metadata => self.metadata_line_height,
            TypeRole::ChatMessage => self.chat_message_line_height,
            TypeRole::ChatSender => self.chat_sender_line_height,
            TypeRole::ChatMetadata => self.chat_metadata_line_height,
            TypeRole::ComposerText => self.composer_text_line_height,
            TypeRole::TechnicalValue => self.technical_value_line_height,
            TypeRole::BrandWordmark => self.brand_wordmark_line_height,
        }
    }
}

/// How every text is set at first.
pub open spec fn usual_typography() -> TypographyTokens {
    TypographyTokens {
        display_heading: TypeRole::DisplayHeading.spec_size_px(),
        page_title: TypeRole::PageTitle.spec_size_px(),
        section_title: TypeRole::SectionTitle.spec_size_px(),
        card_title: TypeRole::CardTitle.spec_size_px(),
        body: TypeRole::Body.spec_size_px(),
        body_emphasised: TypeRole::BodyEmphasised.spec_size_px(),
        button_label: TypeRole::ButtonLabel.spec_size_px(),
        supporting_text: TypeRole::SupportingText.spec_size_px(),
        metadata: TypeRole::Metadata.spec_size_px(),
        chat_message: TypeRole::ChatMessage.spec_size_px(),
        chat_sender: TypeRole::ChatSender.spec_size_px(),
        chat_metadata: TypeRole::ChatMetadata.spec_size_px(),
        composer_text: TypeRole::ComposerText.spec_size_px(),
        technical_value: TypeRole::TechnicalValue.spec_size_px(),
        brand_wordmark: TypeRole::BrandWordmark.spec_size_px(),
        home_subtitle: 1600,
        dialog_title: 2600,
        dialog_subtitle: 1400,
        sidebar_name: 1500,
        section_label: 1100,
        badge: 1000,
        call_name: 2400,
        call_name_active: 2600,
        call_remote_name: 1800,
        call_status: 1600,
        call_duration: 2200,
        call_avatar_glyph: 3600,
        call_avatar_glyph_large: 4400,
        call_pip_label: 1800,
        display_family: FontFamilyKey::InterTight,
        ui_family: FontFamilyKey::PublicSans,
        chat_family: FontFamilyKey::Figtree,
        technical_family: FontFamilyKey::JetBrainsMono,
        brand_family: FontFamilyKey::Raleway,
        display_heading_weight: TypeRole::DisplayHeading.spec_weight_key(),
        page_title_weight: TypeRole::PageTitle.spec_weight_key(),
        section_title_weight: TypeRole::SectionTitle.spec_weight_key(),
        card_title_weight: TypeRole::CardTitle.spec_weight_key(),
        body_weight: TypeRole::Body.spec_weight_key(),
        body_emphasised_weight: TypeRole::BodyEmphasised.spec_weight_key(),
        button_label_weight: TypeRole::ButtonLabel.spec_weight_key(),
        supporting_text_weight: TypeRole::SupportingText.spec_weight_key(),
        metadata_weight: TypeRole::Metadata.spec_weight_key(),
        chat_message_weight: TypeRole::ChatMessage.spec_weight_key(),
        chat_sender_weight: TypeRole::ChatSender.spec_weight_key(),
        chat_metadata_weight: TypeRole::ChatMetadata.spec_weight_key(),
        composer_text_weight: TypeRole::ComposerText.spec_weight_key(),
        technical_value_weight: TypeRole::TechnicalValue.spec_weight_key(),
        brand_wordmark_weight: TypeRole::BrandWordmark.spec_weight_key(),
        display_heading_line_height: TypeRole::DisplayHeading.spec_default_line_height(),
        page_title_line_height: TypeRole::PageTitle.spec_default_line_height(),
        section_title_line_height: TypeRole::SectionTitle.spec_default_line_height(),
        card_title_line_height: TypeRole::CardTitle.spec_default_line_height(),
        body_line_height: TypeRole::Body.spec_default_line_height(),
        body_emphasised_line_height: TypeRole::BodyEmphasised.spec_default_line_height(),
        button_label_line_height: TypeRole::ButtonLabel.spec_default_line_height(),
        supporting_text_line_height: TypeRole::SupportingText.spec_default_line_height(),
        metadata_line_height: TypeRole::Metadata.spec_default_line_height(),
        chat_message_line_height: TypeRole::ChatMessage.spec_default_line_height(),
        chat_sender_line_height: TypeRole::ChatSender.spec_default_line_height(),
        chat_metadata_line_height: TypeRole::ChatMetadata.spec_default_line_height(),
        composer_text_line_height: TypeRole::ComposerText.spec_default_line_height(),
        technical_value_line_height: TypeRole::TechnicalValue.spec_default_line_height(),
        brand_wordmark_line_height: TypeRole::BrandWordmark.spec_default_line_height(),
    }
}

/// At first every text is set as its role asks.
pub proof fn roles_are_set_as_usual(role: TypeRole)
    ensures
        usual_typography().spec_family_for(role) == role.spec_family_key(),
        usual_typography().spec_weight_for(role) == role.spec_weight_key(),
        usual_typography().spec_size_for(role) == role.spec_size_px(),
        usual_typography().spec_line_height_for(role) == role.spec_default_line_height(),
{
}

impl Default for TypographyTokens {
    fn default() -> (tokens: Self)
        ensures
            tokens == usual_typography(),
    {
        TypographyTokens {
            display_heading: TypeRole::DisplayHeading.size_px(),
            page_title: TypeRole::PageTitle.size_px(),
            section_title: TypeRole::SectionTitle.size_px(),
            card_title: TypeRole::CardTitle.size_px(),
            body: TypeRole::Body.size_px(),
            body_emphasised: TypeRole::BodyEmphasised.size_px(),
            button_label: TypeRole::ButtonLabel.size_px(),
            supporting_text: TypeRole::SupportingText.size_px(),
            metadata: TypeRole::Metadata.size_px(),
            chat_message: TypeRole::ChatMessage.size_px(),
            chat_sender: TypeRole::ChatSender.size_px(),
            chat_metadata: TypeRole::ChatMetadata.size_px(),
            composer_text: TypeRole::ComposerText.size_px(),
            technical_value: TypeRole::TechnicalValue.size_px(),
            brand_wordmark: TypeRole::BrandWordmark.size_px(),
            home_subtitle: 1600,
            dialog_title: 2600,
            dialog_subtitle: 1400,
            sidebar_name: 1500,
            section_label: 1100,
            badge: 1000,
            call_name: 2400,
            call_name_active: 2600,
            call_remote_name: 1800,
            call_status: 1600,
            call_duration: 2200,
            call_avatar_glyph: 3600,
            call_avatar_glyph_large: 4400,
            call_pip_label: 1800,
            display_family: FontFamilyKey::InterTight,
            ui_family: FontFamilyKey::PublicSans,
            chat_family: FontFamilyKey::Figtree,
            technical_family: FontFamilyKey::JetBrainsMono,
            brand_family: FontFamilyKey::Raleway,
            display_heading_weight: TypeRole::DisplayHeading.weight_key(),
            page_title_weight: TypeRole::PageTitle.weight_key(),
            section_title_weight: TypeRole::SectionTitle.weight_key(),
            card_title_weight: TypeRole::CardTitle.weight_key(),
            body_weight: TypeRole::Body.weight_key(),
            body_emphasised_weight: TypeRole::BodyEmphasised.weight_key(),
            button_label_weight: TypeRole::ButtonLabel.weight_key(),
            supporting_text_weight: TypeRole::SupportingText.weight_key(),
            metadata_weight: TypeRole::Metadata.weight_key(),
            chat_message_weight: TypeRole::ChatMessage.weight_key(),
            chat_sender_weight: TypeRole::ChatSender.weight_key(),
            chat_metadata_weight: TypeRole::ChatMetadata.weight_key(),
            composer_text_weight: TypeRole::ComposerText.weight_key(),
            technical_value_weight: TypeRole::TechnicalValue.weight_key(),
            brand_wordmark_weight: TypeRole::BrandWordmark.weight_key(),
            display_heading_line_height: TypeRole::DisplayHeading.default_line_height(),
            page_title_line_height: TypeRole::PageTitle.default_line_height(),
            section_title_line_height: TypeRole::SectionTitle.default_line_height(),
            card_title_line_height: TypeRole::CardTitle.default_line_height(),
            body_line_height: TypeRole::Body.default_line_height(),
            body_emphasised_line_height: TypeRole::BodyEmphasised.default_line_height(),
            button_label_line_height: TypeRole::ButtonLabel.default_line_height(),
            supporting_text_line_height: TypeRole::SupportingText.default_line_height(),
            metadata_line_height: TypeRole::Metadata.default_line_height(),
            chat_message_line_height: TypeRole::ChatMessage.default_line_height(),
            chat_sender_line_height: TypeRole::ChatSender.default_line_height(),
            chat_metadata_line_height: TypeRole::ChatMetadata.default_line_height(),
            composer_text_line_height: TypeRole::ComposerText.default_line_height(),
            technical_value_line_height: TypeRole::TechnicalValue.default_line_height(),
            brand_wordmark_line_height: TypeRole::BrandWordmark.default_line_height(),
        }
    }
}

/// Headings are set in the display font, chats in the chat font, technical values in the
/// monospaced one, the brand in its own, and all else in the font of the interface.
pub proof fn fonts_go_by_what_a_text_is_for(role: TypeRole)
    ensures
        ({
            let heading = role is DisplayHeading || role is PageTitle;
            let chat = role is ChatMessage || role is ChatSender || role is ChatMetadata || role
                is ComposerText;
            &&& role.spec_family_key() is InterTight <==> heading
            &&& role.spec_family_key() is Figtree <==> chat
            &&& role.spec_family_key() is JetBrainsMono <==> role is TechnicalValue
            &&& role.spec_family_key() is Raleway <==> role is BrandWordmark
            &&& role.spec_family_key() is PublicSans <==> !heading && !chat && !(role
                is TechnicalValue) && !(role is BrandWordmark)
        }),
{
}

/// Headings are bold, the brand is heavier than anything, titles, labels, senders and what is
/// emphasised are semibold; running text is not.
pub proof fn weights_go_by_what_a_text_is_for(role: TypeRole)
    ensures
        role.spec_weight_key() is Bold <==> role is DisplayHeading || role is PageTitle,
        role.spec_weight_key() is ExtraBold <==> role is BrandWordmark,
        role.spec_weight_key() is Semibold <==> role is SectionTitle || role is CardTitle || role
            is BodyEmphasised || role is ButtonLabel || role is ChatSender,
        role.spec_weight_key() is Normal <==> role is Body || role is SupportingText || role
            is Metadata || role is ChatMessage || role is ChatMetadata || role is ComposerText
            || role is TechnicalValue,
{
}

/// The more a text leads, the larger it is: the heading is the largest, then the brand and the
/// title of a page, of a section, of a card; then what is read, then labels, then what supports
/// it, then what goes with it. Only the heading is set closer, and only messages wider.
pub proof fn sizes_go_by_how_a_text_leads(role: TypeRole)
    ensures
        role.spec_size_px() == 32_00 <==> role is DisplayHeading,
        role.spec_size_px() == 28_00 <==> role is PageTitle || role is BrandWordmark,
        role.spec_size_px() == 20_00 <==> role is SectionTitle,
        role.spec_size_px() == 18_00 <==> role is CardTitle,
        role.spec_size_px() == 15_00 <==> role is Body || role is BodyEmphasised || role
            is ChatMessage || role is ComposerText,
        role.spec_size_px() == 14_00 <==> role is ButtonLabel || role is ChatSender,
        role.spec_size_px() == 13_00 <==> role is SupportingText,
        role.spec_size_px() == 12_00 <==> role is Metadata || role is ChatMetadata || role
            is TechnicalValue,
        role.spec_default_line_height() == 1_20 <==> role is DisplayHeading,
        role.spec_default_line_height() == 1_45 <==> role is ChatMessage,
        role.spec_default_line_height() == 1_30 <==> !(role is DisplayHeading || role
            is ChatMessage),
{
}

/// Each role has a size, a weight and a line height of its own in the tokens, and shares its font
/// with the roles of its kind.
pub proof fn tokens_speak_of_each_role(tokens: TypographyTokens, role: TypeRole)
    ensures
        tokens.spec_size_for(TypeRole::DisplayHeading) == tokens.display_heading,
        tokens.spec_weight_for(TypeRole::DisplayHeading) == tokens.display_heading_weight,
        tokens.spec_line_height_for(TypeRole::DisplayHeading) == tokens.display_heading_line_height,
        tokens.spec_size_for(TypeRole::PageTitle) == tokens.page_title,
        tokens.spec_weight_for(TypeRole::PageTitle) == tokens.page_title_weight,
        tokens.spec_line_height_for(TypeRole::PageTitle) == tokens.page_title_line_height,
        tokens.spec_size_for(TypeRole::SectionTitle) == tokens.section_title,
        tokens.spec_weight_for(TypeRole::SectionTitle) == tokens.section_title_weight,
        tokens.spec_line_height_for(TypeRole::SectionTitle) == tokens.section_title_line_height,
        tokens.spec_size_for(TypeRole::CardTitle) == tokens.card_title,
        tokens.spec_weight_for(TypeRole::CardTitle) == tokens.card_title_weight,
        tokens.spec_line_height_for(TypeRole::CardTitle) == tokens.card_title_line_height,
        tokens.spec_size_for(TypeRole::Body) == tokens.body,
        tokens.spec_weight_for(TypeRole::Body) == tokens.body_weight,
        tokens.spec_line_height_for(TypeRole::Body) == tokens.body_line_height,
        tokens.spec_size_for(TypeRole::BodyEmphasised) == tokens.body_emphasised,
        tokens.spec_weight_for(TypeRole::BodyEmphasised) == tokens.body_emphasised_weight,
        tokens.spec_line_height_for(TypeRole::BodyEmphasised) == tokens.body_emphasised_line_height,
        tokens.spec_size_for(TypeRole::ButtonLabel) == tokens.button_label,
        tokens.spec_weight_for(TypeRole::ButtonLabel) == tokens.button_label_weight,
        tokens.spec_line_height_for(TypeRole::ButtonLabel) == tokens.button_label_line_height,
        tokens.spec_size_for(TypeRole::SupportingText) == tokens.supporting_text,
        tokens.spec_weight_for(TypeRole::SupportingText) == tokens.supporting_text_weight,
        tokens.spec_line_height_for(TypeRole::SupportingText) == tokens.supporting_text_line_height,
        tokens.spec_size_for(TypeRole::Metadata) == tokens.metadata,
        tokens.spec_weight_for(TypeRole::Metadata) == tokens.metadata_weight,
        tokens.spec_line_height_for(TypeRole::Metadata) == tokens.metadata_line_height,
        tokens.spec_size_for(TypeRole::ChatMessage) == tokens.chat_message,
        tokens.spec_weight_for(TypeRole::ChatMessage) == tokens.chat_message_weight,
        tokens.spec_line_height_for(TypeRole::ChatMessage) == tokens.chat_message_line_height,
        tokens.spec_size_for(TypeRole::ChatSender) == tokens.chat_sender,
        tokens.spec_weight_for(TypeRole::ChatSender) == tokens.chat_sender_weight,
        tokens.spec_line_height_for(TypeRole::ChatSender) == tokens.chat_sender_line_height,
        tokens.spec_size_for(TypeRole::ChatMetadata) == tokens.chat_metadata,
        tokens.spec_weight_for(TypeRole::ChatMetadata) == tokens.chat_metadata_weight,
        tokens.spec_line_height_for(TypeRole::ChatMetadata) == tokens.chat_metadata_line_height,
        tokens.spec_size_for(TypeRole::ComposerText) == tokens.composer_text,
        tokens.spec_weight_for(TypeRole::ComposerText) == tokens.composer_text_weight,
        tokens.spec_line_height_for(TypeRole::ComposerText) == tokens.composer_text_line_height,
        tokens.spec_size_for(TypeRole::TechnicalValue) == tokens.technical_value,
        tokens.spec_weight_for(TypeRole::TechnicalValue) == tokens.technical_value_weight,
        tokens.spec_line_height_for(TypeRole::TechnicalValue) == tokens.technical_value_line_height,
        tokens.spec_size_for(TypeRole::BrandWordmark) == tokens.brand_wordmark,
        tokens.spec_weight_for(TypeRole::BrandWordmark) == tokens.brand_wordmark_weight,
        tokens.spec_line_height_for(TypeRole::BrandWordmark) == tokens.brand_wordmark_line_height,
        tokens.spec_family_for(role) == match role.spec_family_key() {
            FontFamilyKey::InterTight => tokens.display_family,
            FontFamilyKey::PublicSans => tokens.ui_family,
            FontFamilyKey::Figtree => tokens.chat_family,
            FontFamilyKey::JetBrainsMono => tokens.technical_family,
            FontFamilyKey::Raleway => tokens.brand_family,
        },
{
}

/// The sizes of what has no role of its own.
pub proof fn other_texts_have_these_sizes()
    ensures
        usual_typography().home_subtitle == 16_00,
        usual_typography().dialog_title == 26_00,
        usual_typography().dialog_subtitle == 14_00,
        usual_typography().sidebar_name == 15_00,
        usual_typography().section_label == 11_00,
        usual_typography().badge == 10_00,
        usual_typography().call_name == 24_00,
        usual_typography().call_name_active == 26_00,
        usual_typography().call_remote_name == 18_00,
        usual_typography().call_status == 16_00,
        usual_typography().call_duration == 22_00,
        usual_typography().call_avatar_glyph == 36_00,
        usual_typography().call_avatar_glyph_large == 44_00,
        usual_typography().call_pip_label == 18_00,
{
}

} // verus!
