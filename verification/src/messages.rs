//! The texts of the status line and of the log, in every language.
use vstd::prelude::*;
use crate::ffmpeg::AudioFormat;
use crate::lang::{phrase_in, say, Lang};
use crate::text::{decimal, decimal_string};

verus! {

pub const READY: [&'static str; 7] = ["Готов", "Ready", "Listo", "準備完了", "준비 완료", "准备就绪", "Pronto"];

pub const NEED_SOURCE: [&'static str; 7] = [
    "Введите URL или выберите локальный файл.",
    "Enter URL or select a local file.",
    "Ingrese URL o seleccione un archivo local.",
    "URLを入力するか、ローカルファイルを選択してください。",
    "URL을 입력하거나 로컬 파일을 선택하세요.",
    "输入URL或选择本地文件。",
    "Insira URL ou selecione um arquivo local.",
];

pub const NEED_FOLDER: [&'static str; 7] = [
    "Выберите папку для сохранения.",
    "Select an output folder.",
    "Seleccione una carpeta de salida.",
    "出力フォルダを選択してください。",
    "출력 폴더를 선택하세요.",
    "选择输出文件夹。",
    "Selecione uma pasta de saída.",
];

pub const STARTING: [&'static str; 7] = [
    "Загрузка...",
    "Downloading...",
    "Descargando...",
    "ダウンロード中...",
    "다운로드 중...",
    "下载中...",
    "Baixando...",
];

pub const ERROR_PREFIX: [&'static str; 7] = [
    "Ошибка: ",
    "Error: ",
    "Error: ",
    "エラー: ",
    "오류: ",
    "错误: ",
    "Erro: ",
];

pub const NO_CLIPBOARD: [&'static str; 7] = [
    "Буфер обмена: установи xclip, xsel или wl-clipboard",
    "Clipboard: install xclip, xsel or wl-clipboard",
    "Portapapeles: instale xclip, xsel o wl-clipboard",
    "クリップボード: xclip、xsel、またはwl-clipboardをインストールしてください",
    "클립보드: xclip, xsel 또는 wl-clipboard를 설치하세요",
    "剪贴板：请安装 xclip、xsel 或 wl-clipboard",
    "Área de transferência: instale xclip, xsel ou wl-clipboard",
];

pub const LOCAL_FILE: [&'static str; 7] = [
    "▶ Файл: ",
    "▶ File: ",
    "▶ Archivo: ",
    "▶ ファイル: ",
    "▶ 파일: ",
    "▶ 文件: ",
    "▶ Arquivo: ",
];

pub const DOWNLOADING: [&'static str; 7] = [
    "▶ Скачивание...",
    "▶ Downloading...",
    "▶ Descargando...",
    "▶ ダウンロード中...",
    "▶ 다운로드 중...",
    "▶ 下载中...",
    "▶ Baixando...",
];

pub const DOWNLOADED: [&'static str; 7] = [
    "  ✓ Скачано",
    "  ✓ Downloaded",
    "  ✓ Descargado",
    "  ✓ ダウンロード完了",
    "  ✓ 다운로드 완료",
    "  ✓ 下载完成",
    "  ✓ Baixado",
];

pub const CONVERTING_BEFORE: [&'static str; 7] = [
    "▶ Конвертация в ",
    "▶ Converting to ",
    "▶ Convirtiendo a ",
    "▶ ",
    "▶ ",
    "▶ 正在转换为 ",
    "▶ Convertendo para ",
];

pub const CONVERTING_AFTER: [&'static str; 7] = [
    ")...",
    ")...",
    ")...",
    ") に変換中...",
    ") 변환 중...",
    ")...",
    ")...",
];

pub const CONVERTED: [&'static str; 7] = [
    "  ✓ Конвертировано",
    "  ✓ Converted",
    "  ✓ Convertido",
    "  ✓ 変換完了",
    "  ✓ 변환 완료",
    "  ✓ 转换完成",
    "  ✓ Convertido",
];

pub const CONVERTED_AVG_BEFORE: [&'static str; 7] = [
    "  ✓ Конвертировано (",
    "  ✓ Converted (",
    "  ✓ Convertido (",
    "  ✓ 変換完了 (平均 ",
    "  ✓ 변환 완료 (평균 ",
    "  ✓ 转换完成（平均 ",
    "  ✓ Convertido (média ",
];

pub const CONVERTED_AVG_AFTER: [&'static str; 7] = [
    " kbps avg)",
    " kbps avg)",
    " kbps promedio)",
    " kbps)",
    " kbps)",
    " kbps）",
    " kbps)",
];

pub const ADDING_SILENCE: [&'static str; 7] = [
    "▶ Добавление тишины...",
    "▶ Adding silence...",
    "▶ Agregando silencio...",
    "▶ 無音を追加中...",
    "▶ 무음 추가 중...",
    "▶ 正在添加静音...",
    "▶ Adicionando silêncio...",
];

pub const SILENCE_ADDED: [&'static str; 7] = [
    "  ✓ Тишина добавлена",
    "  ✓ Silence added",
    "  ✓ Silencio agregado",
    "  ✓ 無音を追加しました",
    "  ✓ 무음 추가 완료",
    "  ✓ 静音已添加",
    "  ✓ Silêncio adicionado",
];

pub const DEBLOATING: [&'static str; 7] = [
    "▶ Деблоатинг: cap ",
    "▶ Debloat: cap ",
    "▶ Reduciendo: límite ",
    "▶ デブロート: 上限 ",
    "▶ 디블로팅: 상한 ",
    "▶ 去膨胀：上限 ",
    "▶ Reduzindo: limite ",
];

pub const DEBLOATED: [&'static str; 7] = [
    "  ✓ Деблоатинг завершён (",
    "  ✓ Debloat done (",
    "  ✓ Reducción completada (",
    "  ✓ デブロート完了 (",
    "  ✓ 디블로팅 완료 (",
    "  ✓ 去膨胀完成（",
    "  ✓ Redução concluída (",
];

pub const KBPS_CLOSE: [&'static str; 7] = [
    " kbps)",
    " kbps)",
    " kbps)",
    " kbps)",
    " kbps)",
    " kbps）",
    " kbps)",
];

pub const FINAL_BITRATE: [&'static str; 7] = [
    "  ✓ Итоговый битрейт: ",
    "  ✓ Final bitrate: ",
    "  ✓ Tasa de bits final: ",
    "  ✓ 最終ビットレート: ",
    "  ✓ 최종 비트레이트: ",
    "  ✓ 最终比特率：",
    "  ✓ Taxa de bits final: ",
];

pub const BLOATED: [&'static str; 7] = [
    "⚠ Возможно раздутие аудио: ",
    "⚠ Audio possibly bloated: ",
    "⚠ Posible inflado de audio: ",
    "⚠ オーディオが膨張している可能性があります: ",
    "⚠ 오디오가 부풀려졌을 가능성: ",
    "⚠ 音频可能已膨胀：",
    "⚠ Áudio possivelmente inflado: ",
];

pub const BLOATED_ADVICE: [&'static str; 7] = [
    " kbps. Проверьте спектрограмму вручную.",
    " kbps. Manual spectrogram check required.",
    " kbps. Verifique el espectrograma manualmente.",
    " kbps。手動でスペクトログラムを確認してください。",
    " kbps. 수동으로 스펙트로그램을 확인하세요.",
    " kbps。请手动检查频谱图。",
    " kbps. Verifique o espectrograma manualmente.",
];

pub const FINISHED: [&'static str; 7] = [
    "  ✓ Готово",
    "  ✓ Done",
    "  ✓ Hecho",
    "  ✓ 完了",
    "  ✓ 완료",
    "  ✓ 完成",
    "  ✓ Pronto",
];

/// What the status line or the log reports; `S` is the type of the texts it holds.
pub enum Notice<S> {
    Ready,
    NeedSource,
    NeedFolder,
    Starting,
    NoClipboard,
    /// The error text of a failed run.
    Failed(S),
    LocalFile(S),
    Downloading,
    Downloaded,
    Converting(AudioFormat),
    /// Conversion finished, with the average bitrate in kbps where it was measured.
    Converted(Option<u64>),
    AddingSilence,
    SilenceAdded,
    Debloating(u64),
    Debloated(u64),
    FinalBitrate(u64),
    /// The bitrate rose from the first to the second value, in kbps.
    PossiblyBloated(u64, u64),
    Finished,
}

impl<S: View<V = Seq<char>>> View for Notice<S> {
    type V = Notice<Seq<char>>;

    open spec fn view(&self) -> Notice<Seq<char>> {
        match self {
            Notice::Ready => Notice::Ready,
            Notice::NeedSource => Notice::NeedSource,
            Notice::NeedFolder => Notice::NeedFolder,
            Notice::Starting => Notice::Starting,
            Notice::NoClipboard => Notice::NoClipboard,
            Notice::Failed(e) => Notice::Failed(e@),
            Notice::LocalFile(n) => Notice::LocalFile(n@),
            Notice::Downloading => Notice::Downloading,
            Notice::Downloaded => Notice::Downloaded,
            Notice::Converting(f) => Notice::Converting(*f),
            Notice::Converted(k) => Notice::Converted(*k),
            Notice::AddingSilence => Notice::AddingSilence,
            Notice::SilenceAdded => Notice::SilenceAdded,
            Notice::Debloating(k) => Notice::Debloating(*k),
            Notice::Debloated(k) => Notice::Debloated(*k),
            Notice::FinalBitrate(k) => Notice::FinalBitrate(*k),
            Notice::PossiblyBloated(a, b) => Notice::PossiblyBloated(*a, *b),
            Notice::Finished => Notice::Finished,
        }
    }
}

pub open spec fn num(k: u64) -> Seq<char> {
    decimal(k as nat)
}

/// The text of a notice in `lang`.
pub open spec fn spec_notice_text(lang: Lang, n: Notice<Seq<char>>) -> Seq<char> {
    match n {
        Notice::Ready => phrase_in(READY, lang),
        Notice::NeedSource => phrase_in(NEED_SOURCE, lang),
        Notice::NeedFolder => phrase_in(NEED_FOLDER, lang),
        Notice::Starting => phrase_in(STARTING, lang),
        Notice::NoClipboard => phrase_in(NO_CLIPBOARD, lang),
        Notice::Failed(e) => phrase_in(ERROR_PREFIX, lang) + e,
        Notice::LocalFile(name) => phrase_in(LOCAL_FILE, lang) + name,
        Notice::Downloading => phrase_in(DOWNLOADING, lang),
        Notice::Downloaded => phrase_in(DOWNLOADED, lang),
        Notice::Converting(f) => phrase_in(CONVERTING_BEFORE, lang) + num(f.spec_target_kbps())
            + " kbps ("@ + f.spec_codec_label() + phrase_in(CONVERTING_AFTER, lang),
        Notice::Converted(None) => phrase_in(CONVERTED, lang),
        Notice::Converted(Some(k)) => phrase_in(CONVERTED_AVG_BEFORE, lang) + num(k) + phrase_in(
            CONVERTED_AVG_AFTER,
            lang,
        ),
        Notice::AddingSilence => phrase_in(ADDING_SILENCE, lang),
        Notice::SilenceAdded => phrase_in(SILENCE_ADDED, lang),
        Notice::Debloating(k) => phrase_in(DEBLOATING, lang) + num(k) + " kbps..."@,
        Notice::Debloated(k) => phrase_in(DEBLOATED, lang) + num(k) + phrase_in(KBPS_CLOSE, lang),
        Notice::FinalBitrate(k) => phrase_in(FINAL_BITRATE, lang) + num(k) + " kbps"@,
        Notice::PossiblyBloated(s, a) => phrase_in(BLOATED, lang) + num(s) + " → "@ + num(a)
            + phrase_in(BLOATED_ADVICE, lang),
        Notice::Finished => phrase_in(FINISHED, lang),
    }
}

fn cat(a: &str, b: &str) -> (res: String)
    ensures
        res@ == a@ + b@,
{
    let mut r = String::from_str(a);
    r.append(b);
    r
}

/// The text of a notice in `lang`.
pub fn notice_text(lang: Lang, n: &Notice<String>) -> (res: String)
    ensures
        res@ == spec_notice_text(lang, n@),
{
    match n {
        Notice::Ready => String::from_str(say(&READY, lang)),
        Notice::NeedSource => String::from_str(say(&NEED_SOURCE, lang)),
        Notice::NeedFolder => String::from_str(say(&NEED_FOLDER, lang)),
        Notice::Starting => String::from_str(say(&STARTING, lang)),
        Notice::NoClipboard => String::from_str(say(&NO_CLIPBOARD, lang)),
        Notice::Failed(e) => cat(say(&ERROR_PREFIX, lang), e.as_str()),
        Notice::LocalFile(name) => cat(say(&LOCAL_FILE, lang), name.as_str()),
        Notice::Downloading => String::from_str(say(&DOWNLOADING, lang)),
        Notice::Downloaded => String::from_str(say(&DOWNLOADED, lang)),
        Notice::Converting(f) => {
            let mut r = cat(say(&CONVERTING_BEFORE, lang), decimal_string(f.target_kbps()).as_str());
            r.append(" kbps (");
            r.append(f.codec_label());
            r.append(say(&CONVERTING_AFTER, lang));
            r
        },
        Notice::Converted(None) => String::from_str(say(&CONVERTED, lang)),
        Notice::Converted(Some(k)) => {
            let mut r = cat(say(&CONVERTED_AVG_BEFORE, lang), decimal_string(*k).as_str());
            r.append(say(&CONVERTED_AVG_AFTER, lang));
            r
        },
        Notice::AddingSilence => String::from_str(say(&ADDING_SILENCE, lang)),
        Notice::SilenceAdded => String::from_str(say(&SILENCE_ADDED, lang)),
        Notice::Debloating(k) => {
            let mut r = cat(say(&DEBLOATING, lang), decimal_string(*k).as_str());
            r.append(" kbps...");
            r
        },
        Notice::Debloated(k) => {
            let mut r = cat(say(&DEBLOATED, lang), decimal_string(*k).as_str());
            r.append(say(&KBPS_CLOSE, lang));
            r
        },
        Notice::FinalBitrate(k) => {
            let mut r = cat(say(&FINAL_BITRATE, lang), decimal_string(*k).as_str());
            r.append(" kbps");
            r
        },
        Notice::PossiblyBloated(s, a) => {
            let mut r = cat(say(&BLOATED, lang), decimal_string(*s).as_str());
            r.append(" → ");
            r.append(decimal_string(*a).as_str());
            r.append(say(&BLOATED_ADVICE, lang));
            r
        },
        Notice::Finished => String::from_str(say(&FINISHED, lang)),
    }
}

} // verus!
