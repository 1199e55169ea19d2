//! The languages of the installer: the texts of its screens and the locale
//! that the installed system generates for each language.

use crate::action::owned;
use vstd::prelude::*;

verus! {

/// The texts of one language.
#[derive(Clone, Debug, PartialEq, Eq)]
pub struct Lang {
    pub _name: String,
    pub full_name: String,
    pub locale: String,
    pub screen_language: String,
    pub screen_wifi_select: String,
    pub screen_wifi_password: String,
    pub screen_disk_select: String,
    pub screen_part_select: String,
    pub screen_part_select_for_efi: String,
    pub screen_usersetup: String,
    pub screen_usersetup_name: String,
    pub screen_usersetup_pass: String,
}

/// The texts of one language as mathematical values.
#[verifier::ext_equal]
pub struct LangView {
    pub name: Seq<char>,
    pub full_name: Seq<char>,
    pub locale: Seq<char>,
    pub screen_language: Seq<char>,
    pub screen_wifi_select: Seq<char>,
    pub screen_wifi_password: Seq<char>,
    pub screen_disk_select: Seq<char>,
    pub screen_part_select: Seq<char>,
    pub screen_part_select_for_efi: Seq<char>,
    pub screen_usersetup: Seq<char>,
    pub screen_usersetup_name: Seq<char>,
    pub screen_usersetup_pass: Seq<char>,
}

impl View for Lang {
    type V = LangView;

    open spec fn view(&self) -> LangView {
        LangView {
            name: self._name@,
            full_name: self.full_name@,
            locale: self.locale@,
            screen_language: self.screen_language@,
            screen_wifi_select: self.screen_wifi_select@,
            screen_wifi_password: self.screen_wifi_password@,
            screen_disk_select: self.screen_disk_select@,
            screen_part_select: self.screen_part_select@,
            screen_part_select_for_efi: self.screen_part_select_for_efi@,
            screen_usersetup: self.screen_usersetup@,
            screen_usersetup_name: self.screen_usersetup_name@,
            screen_usersetup_pass: self.screen_usersetup_pass@,
        }
    }
}

impl DeepView for Lang {
    type V = LangView;

    open spec fn deep_view(&self) -> LangView {
        self@
    }
}

/// English.
pub open spec fn en_view() -> LangView {
    LangView {
        name: "en"@,
        full_name: "English"@,
        locale: "en_US.UTF-8 UTF-8"@,
        screen_language: "Select language"@,
        screen_wifi_select: "Select network"@,
        screen_wifi_password: "Enter password"@,
        screen_disk_select: "Select disk"@,
        screen_part_select: "Select part"@,
        screen_part_select_for_efi: "Select part for efi"@,
        screen_usersetup: "Create user"@,
        screen_usersetup_name: "Name"@,
        screen_usersetup_pass: "Password"@,
    }
}

/// Russian.
pub open spec fn ru_view() -> LangView {
    LangView {
        name: "ru"@,
        full_name: "Русский"@,
        locale: "ru_RU.UTF-8 UTF-8"@,
        screen_language: "Выбор языка"@,
        screen_wifi_select: "Выбор сети"@,
        screen_wifi_password: "Введите пароль"@,
        screen_disk_select: "Выбор диска"@,
        screen_part_select: "Выбор раздела"@,
        screen_part_select_for_efi: "Выбор раздела загрузчика"@,
        screen_usersetup: "Создание пользователя"@,
        screen_usersetup_name: "Имя"@,
        screen_usersetup_pass: "Пароль"@,
    }
}

/// The languages that the installer offers, in the order in which it lists
/// them.
pub open spec fn langs_view() -> Seq<LangView> {
    seq![en_view(), ru_view()]
}

impl Lang {
    /// The English texts.
    pub fn en() -> (lang: Self)
        ensures
            lang@ == en_view(),
    {
        Self {
            _name: owned("en"),
            full_name: owned("English"),
            locale: owned("en_US.UTF-8 UTF-8"),
            screen_language: owned("Select language"),
            screen_wifi_select: owned("Select network"),
            screen_wifi_password: owned("Enter password"),
            screen_disk_select: owned("Select disk"),
            screen_part_select: owned("Select part"),
            screen_part_select_for_efi: owned("Select part for efi"),
            screen_usersetup: owned("Create user"),
            screen_usersetup_name: owned("Name"),
            screen_usersetup_pass: owned("Password"),
        }
    }

    /// The Russian texts.
    pub fn ru() -> (lang: Self)
        ensures
            lang@ == ru_view(),
    {
        Self {
            _name: owned("ru"),
            full_name: owned("Русский"),
            locale: owned("ru_RU.UTF-8 UTF-8"),
            screen_language: owned("Выбор языка"),
            screen_wifi_select: owned("Выбор сети"),
            screen_wifi_password: owned("Введите пароль"),
            screen_disk_select: owned("Выбор диска"),
            screen_part_select: owned("Выбор раздела"),
            screen_part_select_for_efi: owned("Выбор раздела загрузчика"),
            screen_usersetup: owned("Создание пользователя"),
            screen_usersetup_name: owned("Имя"),
            screen_usersetup_pass: owned("Пароль"),
        }
    }

    /// A copy of these texts.
    pub fn copy(&self) -> (lang: Self)
        ensures
            lang@ == self@,
    {
        Self {
            _name: self._name.clone(),
            full_name: self.full_name.clone(),
            locale: self.locale.clone(),
            screen_language: self.screen_language.clone(),
            screen_wifi_select: self.screen_wifi_select.clone(),
            screen_wifi_password: self.screen_wifi_password.clone(),
            screen_disk_select: self.screen_disk_select.clone(),
            screen_part_select: self.screen_part_select.clone(),
            screen_part_select_for_efi: self.screen_part_select_for_efi.clone(),
            screen_usersetup: self.screen_usersetup.clone(),
            screen_usersetup_name: self.screen_usersetup_name.clone(),
            screen_usersetup_pass: self.screen_usersetup_pass.clone(),
        }
    }
}

/// The languages that the installer offers: English, then Russian.
pub fn get_langs() -> (langs: Vec<Lang>)
    ensures
        langs.deep_view() == langs_view(),
{
    let langs = vec![Lang::en(), Lang::ru()];
    assert(langs.deep_view() =~= langs_view());
    langs
}

} // verus!
