//! The fixed texts of a document: the two files that every archive holds as
//! they are, and the templates of the files that are filled in.

use vstd::prelude::*;

verus! {

/// Tells readers where the package document lies.
pub const CONTAINER: &'static str = "<?xml version=\"1.0\"?>
<container version=\"1.0\" xmlns=\"urn:oasis:names:tc:opendocument:xmlns:container\">
  <rootfiles>
    <rootfile full-path=\"OEBPS/content.opf\" media-type=\"application/oebps-package+xml\"/>
  </rootfiles>
</container>
";

/// Tells one family of readers to use the fonts of the document.
pub const IBOOKS: &'static str = "<?xml version=\"1.0\" encoding=\"UTF-8\"?>
<display_options>
  <platform name=\"*\">
    <option name=\"specified-fonts\">true</option>
  </platform>
</display_options>
";

/// The navigation map, for readers of either version.
pub const TOC_NCX: &'static str = "<?xml version=\"1.0\" encoding=\"UTF-8\"?>
<ncx version=\"2005-1\" xmlns=\"http://www.daisy.org/z3986/2005/ncx/\">
  <head>
    <meta name=\"dtb:depth\" content=\"1\"/>
    <meta name=\"dtb:totalPageCount\" content=\"0\"/>
    <meta name=\"dtb:maxPageNumber\" content=\"0\"/>
  </head>
  <docTitle>
    <text>{{{toc_name}}}</text>
  </docTitle>
  <navMap>
{{{nav_points}}}
  </navMap>
</ncx>
";

/// The package document of version 2.
pub const CONTENT_OPF_V2: &'static str = "<?xml version=\"1.0\" encoding=\"UTF-8\"?>
<package version=\"2.0\" xmlns=\"http://www.idpf.org/2007/opf\" unique-identifier=\"epub-id-1\">
  <metadata xmlns:dc=\"http://purl.org/dc/elements/1.1/\" xmlns:opf=\"http://www.idpf.org/2007/opf\">
    <dc:identifier id=\"epub-id-1\">{{{uuid}}}</dc:identifier>
    <dc:title>{{{title}}}</dc:title>
    <dc:date>{{{date}}}</dc:date>
    <dc:language>{{{lang}}}</dc:language>
{{#author}}
    <dc:creator opf:role=\"aut\">{{{name}}}</dc:creator>
{{/author}}
    <meta name=\"generator\" content=\"{{{generator}}}\"/>
{{{optional}}}
  </metadata>
  <manifest>
    <item id=\"ncx\" href=\"toc.ncx\" media-type=\"application/x-dtbncx+xml\"/>
    <item id=\"nav\" href=\"nav.xhtml\" media-type=\"application/xhtml+xml\"/>
{{{items}}}
  </manifest>
  <spine toc=\"ncx\">
{{{itemrefs}}}
  </spine>
  <guide>
{{{guide}}}
  </guide>
</package>
";

/// The package document of version 3.
pub const CONTENT_OPF_V3: &'static str = "<?xml version=\"1.0\" encoding=\"UTF-8\"?>
<package version=\"3.0\" xmlns=\"http://www.idpf.org/2007/opf\" unique-identifier=\"epub-id-1\">
  <metadata xmlns:dc=\"http://purl.org/dc/elements/1.1/\" xmlns:opf=\"http://www.idpf.org/2007/opf\">
    <dc:identifier id=\"epub-id-1\">{{{uuid}}}</dc:identifier>
    <dc:title>{{{title}}}</dc:title>
    <dc:date>{{{date}}}</dc:date>
    <dc:language>{{{lang}}}</dc:language>
{{#author}}
    <dc:creator id=\"epub-creator-{{{id}}}\">{{{name}}}</dc:creator>
    <meta refines=\"#epub-creator-{{{id}}}\" property=\"role\" scheme=\"marc:relators\">aut</meta>
{{/author}}
    <meta property=\"dcterms:modified\">{{{date}}}</meta>
    <meta name=\"generator\" content=\"{{{generator}}}\"/>
{{{optional}}}
  </metadata>
  <manifest>
    <item id=\"ncx\" href=\"toc.ncx\" media-type=\"application/x-dtbncx+xml\"/>
    <item id=\"nav\" href=\"nav.xhtml\" media-type=\"application/xhtml+xml\" properties=\"nav\"/>
{{{items}}}
  </manifest>
  <spine toc=\"ncx\">
{{{itemrefs}}}
  </spine>
  <guide>
{{{guide}}}
  </guide>
</package>
";

/// The navigation page of version 2.
pub const NAV_XHTML_V2: &'static str = "<?xml version=\"1.0\" encoding=\"UTF-8\"?>
<!DOCTYPE html PUBLIC \"-//W3C//DTD XHTML 1.1//EN\" \"http://www.w3.org/TR/xhtml11/DTD/xhtml11.dtd\">
<html xmlns=\"http://www.w3.org/1999/xhtml\">
  <head>
    <meta name=\"generator\" content=\"{{{generator}}}\"/>
    <title>{{{toc_name}}}</title>
    <link rel=\"stylesheet\" type=\"text/css\" href=\"stylesheet.css\"/>
  </head>
  <body>
    <div id=\"toc\">
      <h1 class=\"title\">{{{toc_name}}}</h1>
{{{content}}}
    </div>
  </body>
</html>
";

/// The navigation page of version 3, with the landmarks.
pub const NAV_XHTML_V3: &'static str = "<?xml version=\"1.0\" encoding=\"UTF-8\"?>
<!DOCTYPE html>
<html xmlns=\"http://www.w3.org/1999/xhtml\" xmlns:epub=\"http://www.idpf.org/2007/ops\">
  <head>
    <meta name=\"generator\" content=\"{{{generator}}}\"/>
    <title>{{{toc_name}}}</title>
    <link rel=\"stylesheet\" type=\"text/css\" href=\"stylesheet.css\"/>
  </head>
  <body>
    <nav epub:type=\"toc\" id=\"toc\">
      <h1 class=\"title\">{{{toc_name}}}</h1>
{{{content}}}
    </nav>
    <nav epub:type=\"landmarks\" hidden=\"hidden\">
{{{landmarks}}}
    </nav>
  </body>
</html>
";

/// Whether `t` is one of the templates of this library.
pub open spec fn is_template(t: Seq<char>) -> bool {
    ||| t == TOC_NCX@
    ||| t == CONTENT_OPF_V2@
    ||| t == CONTENT_OPF_V3@
    ||| t == NAV_XHTML_V2@
    ||| t == NAV_XHTML_V3@
}

} // verus!
