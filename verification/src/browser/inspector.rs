//! Finding, inspecting and acting on page elements: the scripts the browser
//! runs in the page for that.

use vstd::prelude::*;
use crate::json::Real64;
use crate::text::{replace, replace_seq, to_string};

verus! {

/// How to find an element: by CSS selector, XPath or text, and which of the
/// matches to take.
#[derive(Debug)]
pub struct ElementSelector {
    pub css: Option<String>,
    pub xpath: Option<String>,
    pub text: Option<String>,
    pub attributes: Option<Vec<(String, String)>>,
    pub index: Option<usize>,
}

/// The characters of an optional string.
pub open spec fn opt_text(s: Option<String>) -> Option<Seq<char>> {
    match s {
        Some(t) => Some(t@),
        None => None,
    }
}

impl ElementSelector {
    /// A selector by CSS selector.
    pub fn css(selector: &str) -> (res: Self)
        ensures
            opt_text(res.css) == Some(selector@),
            res.xpath is None,
            res.text is None,
            res.attributes is None,
            res.index is None,
    {
        ElementSelector { css: Some(to_string(selector)), xpath: None, text: None, attributes: None, index: None }
    }

    /// A selector by XPath.
    pub fn xpath(xpath: &str) -> (res: Self)
        ensures
            res.css is None,
            opt_text(res.xpath) == Some(xpath@),
            res.text is None,
            res.attributes is None,
            res.index is None,
    {
        ElementSelector { css: None, xpath: Some(to_string(xpath)), text: None, attributes: None, index: None }
    }

    /// A selector by text content.
    pub fn text(text: &str) -> (res: Self)
        ensures
            res.css is None,
            res.xpath is None,
            opt_text(res.text) == Some(text@),
            res.attributes is None,
            res.index is None,
    {
        ElementSelector { css: None, xpath: None, text: Some(to_string(text)), attributes: None, index: None }
    }

    /// The same selector, taking match `index`.
    pub fn with_index(self, index: usize) -> (res: Self)
        ensures
            res == (ElementSelector { index: Some(index), ..self }),
    {
        ElementSelector { index: Some(index), ..self }
    }
}

/// Where an element is, in page and viewport coordinates, each a
/// floating-point number carried by its bits.
#[derive(Debug, Clone, Copy, PartialEq, Eq, Structural)]
pub struct ElementBounds {
    pub x: Real64,
    pub y: Real64,
    pub width: Real64,
    pub height: Real64,
    pub viewport_x: Real64,
    pub viewport_y: Real64,
}

/// What is known of an element.
#[derive(Debug)]
pub struct ElementInfo {
    pub tag_name: String,
    pub attributes: Vec<(String, String)>,
    pub text_content: String,
    pub inner_html: String,
    pub outer_html: String,
    pub computed_styles: Vec<(String, String)>,
    pub bounds: ElementBounds,
    pub is_visible: bool,
    pub is_enabled: bool,
    pub css_path: String,
    pub xpath: String,
}

/// A way to act on an element.
#[derive(Debug)]
pub enum InteractionType {
    Click,
    DoubleClick,
    RightClick,
    Hover,
    Focus,
    Blur,
    Type { text: String },
    Clear,
    Select { value: String },
    Check,
    Uncheck,
    Upload { file_path: String },
    Scroll { x: i32, y: i32 },
    Drag { to_x: Real64, to_y: Real64 },
}

/// The outcome of acting on an element.
#[derive(Debug)]
pub struct InteractionResult {
    pub success: bool,
    pub error: Option<String>,
    pub element_info: Option<ElementInfo>,
    pub screenshot_data: Option<String>,
}

/// What to wait for, and for how long.
#[derive(Debug)]
pub struct WaitCondition {
    pub condition_type: WaitConditionType,
    pub selector: ElementSelector,
    pub timeout_ms: u32,
    pub poll_interval_ms: u32,
}

/// The kinds of condition to wait for.
#[derive(Debug)]
pub enum WaitConditionType {
    ElementVisible,
    ElementHidden,
    ElementEnabled,
    ElementDisabled,
    ElementTextContains { text: String },
    ElementAttributeEquals { attribute: String, value: String },
    ElementCount { count: usize },
    PageTitleContains { text: String },
    UrlContains { text: String },
}

/// The script that finds an element by a selector.
pub const FIND_ELEMENT_JS: &'static str = r#"
function findElement(selector) {
    let element = null;
    
    if (selector.css) {
        const elements = document.querySelectorAll(selector.css);
        element = selector.index !== undefined ? elements[selector.index] : elements[0];
    } else if (selector.xpath) {
        const result = document.evaluate(selector.xpath, document, null, XPathResult.FIRST_ORDERED_NODE_TYPE, null);
        element = result.singleNodeValue;
    } else if (selector.text) {
        const walker = document.createTreeWalker(document.body, NodeFilter.SHOW_TEXT);
        let node;
        while (node = walker.nextNode()) {
            if (node.textContent.includes(selector.text)) {
                element = node.parentElement;
                break;
            }
        }
    }
    
    return element;
}
        "#;

/// The script that describes an element.
pub const GET_ELEMENT_INFO_JS: &'static str = r#"
function getElementInfo(element) {
    if (!element) return null;
    
    const rect = element.getBoundingClientRect();
    const computedStyle = window.getComputedStyle(element);
    const attributes = {};
    
    for (let attr of element.attributes) {
        attributes[attr.name] = attr.value;
    }
    
    const styles = {};
    for (let prop of ['display', 'visibility', 'opacity', 'color', 'background-color', 'font-size', 'font-family']) {
        styles[prop] = computedStyle.getPropertyValue(prop);
    }
    
    // Generate CSS selector path
    function getCSSPath(el) {
        if (!(el instanceof Element)) return;
        const path = [];
        while (el.nodeType === Node.ELEMENT_NODE) {
            let selector = el.nodeName.toLowerCase();
            if (el.id) {
                selector += '#' + el.id;
                path.unshift(selector);
                break;
            } else {
                let sib = el, nth = 1;
                while (sib = sib.previousElementSibling) {
                    if (sib.nodeName.toLowerCase() == selector) nth++;
                }
                if (nth != 1) selector += ":nth-of-type(" + nth + ")";
            }
            path.unshift(selector);
            el = el.parentNode;
        }
        return path.join(" > ");
    }
    
    // Generate XPath
    function getXPath(el) {
        if (el.id !== '') return 'id("' + el.id + '")';
        if (el === document.body) return el.tagName;
        
        let ix = 0;
        const siblings = el.parentNode.childNodes;
        for (let i = 0; i < siblings.length; i++) {
            const sibling = siblings[i];
            if (sibling === el) return getXPath(el.parentNode) + '/' + el.tagName + '[' + (ix + 1) + ']';
            if (sibling.nodeType === 1 && sibling.tagName === el.tagName) ix++;
        }
    }
    
    return {
        tagName: element.tagName.toLowerCase(),
        attributes: attributes,
        textContent: element.textContent.trim(),
        innerHTML: element.innerHTML,
        outerHTML: element.outerHTML,
        computedStyles: styles,
        bounds: {
            x: rect.left + window.scrollX,
            y: rect.top + window.scrollY,
            width: rect.width,
            height: rect.height,
            viewport_x: rect.left,
            viewport_y: rect.top
        },
        isVisible: rect.width > 0 && rect.height > 0 && computedStyle.visibility !== 'hidden' && computedStyle.display !== 'none',
        isEnabled: !element.disabled,
        cssPath: getCSSPath(element),
        xpath: getXPath(element)
    };
}
        "#;

/// The script that acts on an element.
pub const INTERACT_ELEMENT_JS: &'static str = r#"
function interactWithElement(element, interaction) {
    if (!element) return { success: false, error: 'Element not found' };
    
    try {
        switch (interaction.type) {
            case 'click':
                element.click();
                break;
            case 'double_click':
                element.dispatchEvent(new MouseEvent('dblclick', { bubbles: true }));
                break;
            case 'right_click':
                element.dispatchEvent(new MouseEvent('contextmenu', { bubbles: true }));
                break;
            case 'hover':
                element.dispatchEvent(new MouseEvent('mouseover', { bubbles: true }));
                break;
            case 'focus':
                element.focus();
                break;
            case 'blur':
                element.blur();
                break;
            case 'type':
                element.focus();
                element.value = interaction.text;
                element.dispatchEvent(new Event('input', { bubbles: true }));
                element.dispatchEvent(new Event('change', { bubbles: true }));
                break;
            case 'clear':
                element.value = '';
                element.dispatchEvent(new Event('input', { bubbles: true }));
                element.dispatchEvent(new Event('change', { bubbles: true }));
                break;
            case 'select':
                if (element.tagName.toLowerCase() === 'select') {
                    element.value = interaction.value;
                    element.dispatchEvent(new Event('change', { bubbles: true }));
                }
                break;
            case 'check':
                if (element.type === 'checkbox' || element.type === 'radio') {
                    element.checked = true;
                    element.dispatchEvent(new Event('change', { bubbles: true }));
                }
                break;
            case 'uncheck':
                if (element.type === 'checkbox') {
                    element.checked = false;
                    element.dispatchEvent(new Event('change', { bubbles: true }));
                }
                break;
            case 'scroll':
                element.scrollBy(interaction.x, interaction.y);
                break;
            default:
                return { success: false, error: 'Unknown interaction type: ' + interaction.type };
        }
        
        return { success: true };
    } catch (error) {
        return { success: false, error: error.message };
    }
}
        "#;

/// The script that checks a wait condition.
pub const CHECK_WAIT_CONDITION_JS: &'static str = r#"
function checkWaitCondition(condition) {
    const element = findElement(condition.selector);
    
    switch (condition.condition_type) {
        case 'element_visible':
            return element && getElementInfo(element).isVisible;
        case 'element_hidden':
            return !element || !getElementInfo(element).isVisible;
        case 'element_enabled':
            return element && getElementInfo(element).isEnabled;
        case 'element_disabled':
            return element && !getElementInfo(element).isEnabled;
        case 'element_text_contains':
            return element && element.textContent.includes(condition.text);
        case 'element_attribute_equals':
            return element && element.getAttribute(condition.attribute) === condition.value;
        case 'element_count':
            const elements = condition.selector.css ? document.querySelectorAll(condition.selector.css) : [];
            return elements.length === condition.count;
        case 'page_title_contains':
            return document.title.includes(condition.text);
        case 'url_contains':
            return window.location.href.includes(condition.text);
        default:
            return false;
    }
}
        "#;

/// The script that outlines an element.
pub const HIGHLIGHT_ELEMENT_JS: &'static str = r#"
function highlightElement(element, color = '#ff0000', duration = 3000) {
    if (!element) return;
    
    const originalStyle = {
        outline: element.style.outline,
        outlineOffset: element.style.outlineOffset
    };
    
    element.style.outline = `3px solid ${color}`;
    element.style.outlineOffset = '2px';
    
    setTimeout(() => {
        element.style.outline = originalStyle.outline;
        element.style.outlineOffset = originalStyle.outlineOffset;
    }, duration);
}
        "#;

/// The script that describes the page.
pub const PAGE_INFO_JS: &'static str = r#"
        ({
            title: document.title,
            url: window.location.href,
            readyState: document.readyState,
            elementCount: document.querySelectorAll('*').length,
            viewport: {
                width: window.innerWidth,
                height: window.innerHeight,
                scrollX: window.scrollX,
                scrollY: window.scrollY
            },
            performance: performance.now ? {
                navigationStart: performance.timing.navigationStart,
                loadEventEnd: performance.timing.loadEventEnd,
                domContentLoaded: performance.timing.domContentLoadedEventEnd - performance.timing.navigationStart,
                loadComplete: performance.timing.loadEventEnd - performance.timing.navigationStart
            } : null
        })
        "#;

/// A fixed part of a script.
pub const FIND_ELEMENT_0: &'static str = r#"
            "#;

/// A fixed part of a script.
pub const FIND_ELEMENT_1: &'static str = r#";
            const selector = "#;

/// A fixed part of a script.
pub const FIND_ELEMENT_2: &'static str = r#";
            const element = findElement(selector);
            element ? getElementInfo(element) : null;
            "#;

/// A fixed part of a script.
pub const GET_ELEMENT_INFO_0: &'static str = r#"
            "#;

/// A fixed part of a script.
pub const GET_ELEMENT_INFO_1: &'static str = r#";
            "#;

/// A fixed part of a script.
pub const GET_ELEMENT_INFO_2: &'static str = r#";
            const selector = "#;

/// A fixed part of a script.
pub const GET_ELEMENT_INFO_3: &'static str = r#";
            const element = findElement(selector);
            element ? getElementInfo(element) : null;
            "#;

/// A fixed part of a script.
pub const INTERACT_WITH_ELEMENT_0: &'static str = r#"
            "#;

/// A fixed part of a script.
pub const INTERACT_WITH_ELEMENT_1: &'static str = r#";
            "#;

/// A fixed part of a script.
pub const INTERACT_WITH_ELEMENT_2: &'static str = r#";
            "#;

/// A fixed part of a script.
pub const INTERACT_WITH_ELEMENT_3: &'static str = r#";
            const selector = "#;

/// A fixed part of a script.
pub const INTERACT_WITH_ELEMENT_4: &'static str = r#";
            const interaction = "#;

/// A fixed part of a script.
pub const INTERACT_WITH_ELEMENT_5: &'static str = r#";
            const element = findElement(selector);
            const result = interactWithElement(element, interaction);
            if (result.success) {
                result.elementInfo = getElementInfo(element);
            }
            result;
            "#;

/// A fixed part of a script.
pub const HIGHLIGHT_ELEMENT_0: &'static str = r#"
            "#;

/// A fixed part of a script.
pub const HIGHLIGHT_ELEMENT_1: &'static str = r#";
            "#;

/// A fixed part of a script.
pub const HIGHLIGHT_ELEMENT_2: &'static str = r#";
            const selector = "#;

/// A fixed part of a script.
pub const HIGHLIGHT_ELEMENT_3: &'static str = r#";
            const element = findElement(selector);
            if (element) {
                highlightElement(element, '"#;

/// A fixed part of a script.
pub const HIGHLIGHT_ELEMENT_4: &'static str = r#"');
                getElementInfo(element);
            } else {
                null;
            }
            "#;

/// A fixed part of a script.
pub const CHECK_WAIT_CONDITION_0: &'static str = r#"
            "#;

/// A fixed part of a script.
pub const CHECK_WAIT_CONDITION_1: &'static str = r#";
            "#;

/// A fixed part of a script.
pub const CHECK_WAIT_CONDITION_2: &'static str = r#";
            "#;

/// A fixed part of a script.
pub const CHECK_WAIT_CONDITION_3: &'static str = r#";
            const condition = "#;

/// A fixed part of a script.
pub const CHECK_WAIT_CONDITION_4: &'static str = r#";
            checkWaitCondition(condition);
            "#;

/// A fixed part of a script.
pub const FIND_ALL_ELEMENTS_0: &'static str = r#"
            "#;

/// A fixed part of a script.
pub const FIND_ALL_ELEMENTS_1: &'static str = r#";
            const elements = document.querySelectorAll('"#;

/// A fixed part of a script.
pub const FIND_ALL_ELEMENTS_2: &'static str = r#"');
            Array.from(elements).map(el => getElementInfo(el));
            "#;

/// An inspector as a mathematical value: its script library.
pub struct InspectorView {
    pub find_element_js: Seq<char>,
    pub get_element_info_js: Seq<char>,
    pub interact_element_js: Seq<char>,
    pub check_wait_condition_js: Seq<char>,
    pub highlight_element_js: Seq<char>,
}

/// Builds the scripts that find, describe and act on elements.
pub struct DOMInspector {
    find_element_js: String,
    get_element_info_js: String,
    interact_element_js: String,
    check_wait_condition_js: String,
    highlight_element_js: String,
}

impl View for DOMInspector {
    type V = InspectorView;

    closed spec fn view(&self) -> InspectorView {
        InspectorView {
            find_element_js: self.find_element_js@,
            get_element_info_js: self.get_element_info_js@,
            interact_element_js: self.interact_element_js@,
            check_wait_condition_js: self.check_wait_condition_js@,
            highlight_element_js: self.highlight_element_js@,
        }
    }
}

/// The inspector's script library.
pub open spec fn library_v() -> InspectorView {
    InspectorView {
        find_element_js: FIND_ELEMENT_JS@,
        get_element_info_js: GET_ELEMENT_INFO_JS@,
        interact_element_js: INTERACT_ELEMENT_JS@,
        check_wait_condition_js: CHECK_WAIT_CONDITION_JS@,
        highlight_element_js: HIGHLIGHT_ELEMENT_JS@,
    }
}

impl DOMInspector {
    /// An inspector with its script library.
    pub fn new() -> (res: Self)
        ensures
            res@ == library_v(),
    {
        let mut inspector = DOMInspector {
            find_element_js: String::new(),
            get_element_info_js: String::new(),
            interact_element_js: String::new(),
            check_wait_condition_js: String::new(),
            highlight_element_js: String::new(),
        };
        inspector.initialize_js_snippets();
        inspector
    }

    /// Loads the script library.
    pub fn initialize_js_snippets(&mut self)
        ensures
            final(self)@ == library_v(),
    {
        self.find_element_js = to_string(FIND_ELEMENT_JS);
        self.get_element_info_js = to_string(GET_ELEMENT_INFO_JS);
        self.interact_element_js = to_string(INTERACT_ELEMENT_JS);
        self.check_wait_condition_js = to_string(CHECK_WAIT_CONDITION_JS);
        self.highlight_element_js = to_string(HIGHLIGHT_ELEMENT_JS);
    }

    /// The script that finds the element `selector_json` (a selector written
    /// as JSON) and describes it.
    pub fn find_element(&self, selector_json: &str) -> (res: String)
        ensures
            res@ == FIND_ELEMENT_0@ + self@.find_element_js + FIND_ELEMENT_1@ + selector_json@ + FIND_ELEMENT_2@,
    {
        let mut s = String::from_str(FIND_ELEMENT_0);
        s.append(self.find_element_js.as_str());
        s.append(FIND_ELEMENT_1);
        s.append(selector_json);
        s.append(FIND_ELEMENT_2);
        s
    }

    /// The script that describes the element `selector_json`.
    pub fn get_element_info(&self, selector_json: &str) -> (res: String)
        ensures
            res@ == GET_ELEMENT_INFO_0@ + self@.find_element_js + GET_ELEMENT_INFO_1@ + self@.get_element_info_js + GET_ELEMENT_INFO_2@ + selector_json@ + GET_ELEMENT_INFO_3@,
    {
        let mut s = String::from_str(GET_ELEMENT_INFO_0);
        s.append(self.find_element_js.as_str());
        s.append(GET_ELEMENT_INFO_1);
        s.append(self.get_element_info_js.as_str());
        s.append(GET_ELEMENT_INFO_2);
        s.append(selector_json);
        s.append(GET_ELEMENT_INFO_3);
        s
    }

    /// The script that acts on the element `selector_json` as
    /// `interaction_json` says, and describes it if that worked.
    pub fn interact_with_element(&self, selector_json: &str, interaction_json: &str) -> (res: String)
        ensures
            res@ == INTERACT_WITH_ELEMENT_0@ + self@.find_element_js + INTERACT_WITH_ELEMENT_1@ + self@.get_element_info_js + INTERACT_WITH_ELEMENT_2@ + self@.interact_element_js + INTERACT_WITH_ELEMENT_3@ + selector_json@ + INTERACT_WITH_ELEMENT_4@ + interaction_json@ + INTERACT_WITH_ELEMENT_5@,
    {
        let mut s = String::from_str(INTERACT_WITH_ELEMENT_0);
        s.append(self.find_element_js.as_str());
        s.append(INTERACT_WITH_ELEMENT_1);
        s.append(self.get_element_info_js.as_str());
        s.append(INTERACT_WITH_ELEMENT_2);
        s.append(self.interact_element_js.as_str());
        s.append(INTERACT_WITH_ELEMENT_3);
        s.append(selector_json);
        s.append(INTERACT_WITH_ELEMENT_4);
        s.append(interaction_json);
        s.append(INTERACT_WITH_ELEMENT_5);
        s
    }

    /// The script that outlines the element `selector_json` in `color` (red
    /// by default) and describes it.
    pub fn highlight_element(&self, selector_json: &str, color: Option<&str>) -> (res: String)
        ensures
            ({
                let color = match color {
                    Some(c) => c@,
                    None => "#ff0000"@,
                };
                res@ == HIGHLIGHT_ELEMENT_0@ + self@.find_element_js + HIGHLIGHT_ELEMENT_1@ + self@.highlight_element_js + HIGHLIGHT_ELEMENT_2@ + selector_json@ + HIGHLIGHT_ELEMENT_3@ + color + HIGHLIGHT_ELEMENT_4@
            }),
    {
        let color = match color {
            Some(c) => c,
            None => "#ff0000",
        };
        let mut s = String::from_str(HIGHLIGHT_ELEMENT_0);
        s.append(self.find_element_js.as_str());
        s.append(HIGHLIGHT_ELEMENT_1);
        s.append(self.highlight_element_js.as_str());
        s.append(HIGHLIGHT_ELEMENT_2);
        s.append(selector_json);
        s.append(HIGHLIGHT_ELEMENT_3);
        s.append(color);
        s.append(HIGHLIGHT_ELEMENT_4);
        s
    }

    /// The script that checks the wait condition `condition_json`.
    pub fn check_wait_condition(&self, condition_json: &str) -> (res: String)
        ensures
            res@ == CHECK_WAIT_CONDITION_0@ + self@.find_element_js + CHECK_WAIT_CONDITION_1@ + self@.get_element_info_js + CHECK_WAIT_CONDITION_2@ + self@.check_wait_condition_js + CHECK_WAIT_CONDITION_3@ + condition_json@ + CHECK_WAIT_CONDITION_4@,
    {
        let mut s = String::from_str(CHECK_WAIT_CONDITION_0);
        s.append(self.find_element_js.as_str());
        s.append(CHECK_WAIT_CONDITION_1);
        s.append(self.get_element_info_js.as_str());
        s.append(CHECK_WAIT_CONDITION_2);
        s.append(self.check_wait_condition_js.as_str());
        s.append(CHECK_WAIT_CONDITION_3);
        s.append(condition_json);
        s.append(CHECK_WAIT_CONDITION_4);
        s
    }

    /// The script that describes every element matching `css_selector`, with
    /// its single quotes escaped.
    pub fn find_all_elements(&self, css_selector: &str) -> (res: String)
        ensures
            ({
                let quoted = replace_seq(css_selector@, "'"@, "\\'"@);
                res@ == FIND_ALL_ELEMENTS_0@ + self@.get_element_info_js + FIND_ALL_ELEMENTS_1@ + quoted + FIND_ALL_ELEMENTS_2@
            }),
    {
        proof {
            reveal_strlit("'");
        }
        let quoted = replace(css_selector, "'", "\\'");
        let mut s = String::from_str(FIND_ALL_ELEMENTS_0);
        s.append(self.get_element_info_js.as_str());
        s.append(FIND_ALL_ELEMENTS_1);
        s.append(quoted.as_str());
        s.append(FIND_ALL_ELEMENTS_2);
        s
    }

    /// The script that describes the page.
    pub fn get_page_info(&self) -> (res: String)
        ensures
            res@ == PAGE_INFO_JS@,
    {
        to_string(PAGE_INFO_JS)
    }
}

impl Default for DOMInspector {
    fn default() -> (res: Self)
        ensures
            res@ == library_v(),
    {
        DOMInspector::new()
    }
}

} // verus!
