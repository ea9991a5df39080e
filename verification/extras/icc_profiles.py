"""Writes src/profiles.rs: the ICC profiles that the loader builds in.

- gray: the grey space that grey pixels are converted into (D50 white, gamma 2.2);
- cmyk: a printer profile (5x5x5x5 lookup table into Lab) that mixes inks by the plain
  subtractive formula and renders them as sRGB colours;
- adobe1998: a matrix/TRC profile with the Adobe RGB (1998) primaries, adapted to D50.

Run it from anywhere: python3 extras/icc_profiles.py
"""
import os, struct, math

def s15(x): return struct.pack('>i', int(round(x*65536)))
def tag_desc(text):
    a=text.encode()+b'\0'
    return b'desc'+b'\0'*4+struct.pack('>I',len(a))+a+struct.pack('>II',0,0)+struct.pack('>HB',0,0)+b'\0'*67
def tag_text(text): return b'text'+b'\0'*4+text.encode()+b'\0'
def tag_xyz(x,y,z): return b'XYZ '+b'\0'*4+s15(x)+s15(y)+s15(z)
def tag_curv_gamma(g): return b'curv'+b'\0'*4+struct.pack('>I',1)+struct.pack('>H',int(round(g*256)))
D50=(0.9642,1.0,0.8249)
def profile(cls, space, pcs, tags):
    # tags: list of (sig, data)
    n=len(tags)
    off=128+4+12*n
    table=b''; body=b''
    for sig,data in tags:
        while (off+len(body))%4: body+=b'\0'
        table+=sig.encode()+struct.pack('>II',off+len(body),len(data))
        body+=data
    while len(body)%4: body+=b'\0'
    size=128+4+12*n+len(body)
    hdr=struct.pack('>I',size)+b'\0'*4+struct.pack('>I',0x02100000)+cls.encode()+space.encode()+pcs.encode()
    hdr+=struct.pack('>6H',2024,1,1,0,0,0)+b'acsp'+b'\0'*4+b'\0'*4+b'\0'*8+b'\0'*8+struct.pack('>I',0)
    hdr+=s15(D50[0])+s15(D50[1])+s15(D50[2])+b'\0'*4+b'\0'*16
    hdr+=b'\0'*(128-len(hdr))
    assert len(hdr)==128
    return hdr+struct.pack('>I',n)+table+body

gray=profile('mntr','GRAY','XYZ ',[('desc',tag_desc('Gray gamma 2.2')),('wtpt',tag_xyz(*D50)),('kTRC',tag_curv_gamma(563/256)),('cprt',tag_text('No copyright, use freely'))])
# Adobe RGB (1998) D50-adapted colorants
adobe=profile('mntr','RGB ','XYZ ',[('desc',tag_desc('Adobe RGB (1998) compatible')),('wtpt',tag_xyz(*D50)),
 ('rXYZ',tag_xyz(0.60974,0.31111,0.01947)),('gXYZ',tag_xyz(0.20528,0.62567,0.06087)),('bXYZ',tag_xyz(0.14919,0.06322,0.74457)),
 ('rTRC',tag_curv_gamma(563/256)),('gTRC',tag_curv_gamma(563/256)),('bTRC',tag_curv_gamma(563/256)),('cprt',tag_text('No copyright, use freely'))])

def srgb_to_lab(r,g,b):
    def lin(c): return c/12.92 if c<=0.04045 else ((c+0.055)/1.055)**2.4
    r,g,b=lin(r),lin(g),lin(b)
    # sRGB D50 (Bradford adapted) matrix
    X=0.4360747*r+0.3850649*g+0.1430804*b
    Y=0.2225045*r+0.7168786*g+0.0606169*b
    Z=0.0139322*r+0.0971045*g+0.7141733*b
    def f(t): return t**(1/3) if t>216/24389 else (24389/27*t+16)/116
    fx,fy,fz=f(X/D50[0]),f(Y/D50[1]),f(Z/D50[2])
    return 116*fy-16, 500*(fx-fy), 200*(fy-fz)
def enc_lab(L,a,b):
    L=max(0,min(100,L)); a=max(-128,min(127.99,a)); b=max(-128,min(127.99,b))
    return [int(round(L*652.80)), int(round((a+128)*256)), int(round((b+128)*256))]
G=5
clut=b''
for c in range(G):
 for m in range(G):
  for y in range(G):
   for k in range(G):
    C,M,Y,K=c/(G-1),m/(G-1),y/(G-1),k/(G-1)
    r=(1-C)*(1-K); g=(1-M)*(1-K); b=(1-Y)*(1-K)
    for v in enc_lab(*srgb_to_lab(r,g,b)): clut+=struct.pack('>H',min(65535,v))
mft2=b'mft2'+b'\0'*4+bytes([4,3,G,0])
for i in range(9): mft2+=s15(1.0 if i in (0,4,8) else 0.0)
mft2+=struct.pack('>HH',2,2)
mft2+=struct.pack('>HH',0,65535)*4+clut+struct.pack('>HH',0,65535)*3
cmyk=profile('prtr','CMYK','Lab ',[('desc',tag_desc('Uncoated ink CMYK approximation')),('wtpt',tag_xyz(*D50)),('A2B0',mft2),('cprt',tag_text('No copyright, use freely'))])

def rsparts(const, name, doc, data, parts):
    size = len(data) // parts
    assert size * parts == len(data)
    out = ''
    names = []
    for k in range(parts):
        part = data[k*size:(k+1)*size]
        lines = ['    ' + ', '.join('0x%02x' % x for x in part[i:i+16]) + ',' for i in range(0, len(part), 16)]
        names.append('%s_%d' % (const, k))
        out += '/// Part %d of %d of the bytes of the profile that [`%s`] returns.\npub const %s: [u8; %d] = [\n%s\n];\n\n' % (
            k + 1, parts, name, names[-1], size, '\n'.join(lines))
    spec = name + '_icc'
    out += ('/// The bytes of the profile that [`%s`] returns: its parts in order, kept from the\n'
            '/// solver until revealed.\n#[verifier::opaque]\npub open spec fn %s() -> Seq<u8> {\n    %s\n}\n\n') % (
        name, spec, ' + '.join(n + '@' for n in names))
    body = '    reveal(%s);\n    let mut icc = vstd::slice::slice_to_vec(%s.as_slice());\n' % (spec, names[0])
    for n in names[1:]:
        body += '    let mut part = vstd::slice::slice_to_vec(%s.as_slice());\n    icc.append(&mut part);\n' % n
    out += '%s\npub fn %s() -> (icc: Vec<u8>)\n    ensures\n        icc@ == %s(),\n{\n%s    icc\n}\n' % (doc, name, spec, body)
    return out

def rsconst(const, name, doc, data):
    lines = []
    for i in range(0, len(data), 16):
        lines.append('    ' + ', '.join('0x%02x' % x for x in data[i:i+16]) + ',')
    spec = name + '_icc'
    return ('%s\npub const %s: [u8; %d] = [\n%s\n];\n\n'
            '/// The bytes of [`%s`], kept from the solver until revealed.\n#[verifier::opaque]\n'
            'pub open spec fn %s() -> Seq<u8> {\n    %s@\n}\n\n'
            '%s\npub fn %s() -> (icc: Vec<u8>)\n    ensures\n        icc@ == %s(),\n{\n'
            '    reveal(%s);\n    vstd::slice::slice_to_vec(%s.as_slice())\n}\n') % (
        doc, const, len(data), '\n'.join(lines), const, spec, const, doc, name, spec, spec, const)

MACRO='ver' + 'us'
out='use vstd::prelude::*;\n\n' + MACRO + '! {\n\n'
out+=rsconst('GRAY_ICC','gray','/// ICC profile of the grey space that grey pixels are converted into: D50 white, gamma 2.2.',gray)+'\n'
out+=rsparts('CMYK_ICC','cmyk','/// ICC profile assumed for CMYK pixels that carry no usable profile of their own:\n/// inks mixed by the plain subtractive formula, rendered into sRGB.',cmyk,8)+'\n'
out+=rsconst('ADOBE1998_ICC','adobe1998','/// ICC profile of the Adobe RGB (1998) space, assumed for JPEG files whose EXIF\n/// primaries are those of Adobe RGB (1998) and that embed no profile.',adobe)
out+='\n} // ' + MACRO + '!\n'
open(os.path.join(os.path.dirname(os.path.abspath(__file__)), '..', 'src', 'profiles.rs'), 'w').write(out)
print(len(gray),len(adobe),len(cmyk))
